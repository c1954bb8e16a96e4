//! Capture and logging settings.

use vstd::prelude::*;

verus! {

/// What the user configured: the capture device, which capture backend
/// opens it, and how much is logged.
#[derive(Debug)]
pub struct Settings {
    pub device_name: String,
    pub directshow: bool,
    pub log_level: String,
    pub write_log_to_file: bool,
}

impl Clone for Settings {
    fn clone(&self) -> (r: Self)
        ensures
            r == *self,
    {
        Settings {
            device_name: self.device_name.clone(),
            directshow: self.directshow,
            log_level: self.log_level.clone(),
            write_log_to_file: self.write_log_to_file,
        }
    }
}

impl Settings {
    pub fn new(
        device_name: String,
        directshow: bool,
        log_level: String,
        write_log_to_file: bool,
    ) -> (s: Self)
        ensures
            s.device_name == device_name,
            s.directshow == directshow,
            s.log_level == log_level,
            s.write_log_to_file == write_log_to_file,
    {
        Self { device_name, directshow, log_level, write_log_to_file }
    }

    pub fn device_name(&self) -> (r: &str)
        ensures
            r@ == self.device_name@,
    {
        self.device_name.as_str()
    }

    pub fn directshow(&self) -> (r: bool)
        ensures
            r == self.directshow,
    {
        self.directshow
    }

    pub fn log_level(&self) -> (r: &str)
        ensures
            r@ == self.log_level@,
    {
        self.log_level.as_str()
    }

    pub fn write_log_to_file(&self) -> (r: bool)
        ensures
            r == self.write_log_to_file,
    {
        self.write_log_to_file
    }
}

} // verus!
