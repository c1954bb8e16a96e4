//! Finishing positions and per-race results.

use vstd::prelude::*;

use crate::courses::Course;
use crate::courses::spec_course_display;

verus! {

/// One of the twelve finishing ranks of a race.
#[derive(Debug, Clone, Copy, PartialEq, Eq, Structural)]
pub enum Position {
    First,
    Second,
    Third,
    Fourth,
    Fifth,
    Sixth,
    Seventh,
    Eighth,
    Ninth,
    Tenth,
    Eleventh,
    Twelfth,
}

/// The rank at a given zero-based index: 0 is first place, 11 is twelfth.
pub open spec fn spec_position_from_index(index: int) -> Position {
    if index == 0 {
        Position::First
    } else if index == 1 {
        Position::Second
    } else if index == 2 {
        Position::Third
    } else if index == 3 {
        Position::Fourth
    } else if index == 4 {
        Position::Fifth
    } else if index == 5 {
        Position::Sixth
    } else if index == 6 {
        Position::Seventh
    } else if index == 7 {
        Position::Eighth
    } else if index == 8 {
        Position::Ninth
    } else if index == 9 {
        Position::Tenth
    } else if index == 10 {
        Position::Eleventh
    } else {
        Position::Twelfth
    }
}

/// The point value a rank is worth.
pub open spec fn spec_position_score(p: Position) -> u32 {
    match p {
        Position::First => 15,
        Position::Second => 12,
        Position::Third => 10,
        Position::Fourth => 9,
        Position::Fifth => 8,
        Position::Sixth => 7,
        Position::Seventh => 6,
        Position::Eighth => 5,
        Position::Ninth => 4,
        Position::Tenth => 3,
        Position::Eleventh => 2,
        Position::Twelfth => 1,
    }
}

impl Position {
    /// The rank shown on the row with this zero-based index. An index
    /// beyond the twelfth row would be an invariant violation, so callers
    /// must rule it out.
    pub fn from_index(index: usize) -> (p: Position)
        requires
            index < 12,
        ensures
            p == spec_position_from_index(index as int),
    {
        match index {
            0 => Position::First,
            1 => Position::Second,
            2 => Position::Third,
            3 => Position::Fourth,
            4 => Position::Fifth,
            5 => Position::Sixth,
            6 => Position::Seventh,
            7 => Position::Eighth,
            8 => Position::Ninth,
            9 => Position::Tenth,
            10 => Position::Eleventh,
            _ => Position::Twelfth,
        }
    }

    pub fn to_score(self) -> (s: u32)
        ensures
            s == spec_position_score(self),
    {
        match self {
            Position::First => 15,
            Position::Second => 12,
            Position::Third => 10,
            Position::Fourth => 9,
            Position::Fifth => 8,
            Position::Sixth => 7,
            Position::Seventh => 6,
            Position::Eighth => 5,
            Position::Ninth => 4,
            Position::Tenth => 3,
            Position::Eleventh => 2,
            Position::Twelfth => 1,
        }
    }

    /// The rank as the digits shown to the user: "1" for first place.
    pub fn label(self) -> (s: String)
        ensures
            s@ == spec_position_label(self),
    {
        let text: &str = match self {
            Position::First => "1",
            Position::Second => "2",
            Position::Third => "3",
            Position::Fourth => "4",
            Position::Fifth => "5",
            Position::Sixth => "6",
            Position::Seventh => "7",
            Position::Eighth => "8",
            Position::Ninth => "9",
            Position::Tenth => "10",
            Position::Eleventh => "11",
            Position::Twelfth => "12",
        };
        text.to_owned()
    }
}

/// The digits naming a rank.
pub open spec fn spec_position_label(p: Position) -> Seq<char> {
    match p {
        Position::First => "1"@,
        Position::Second => "2"@,
        Position::Third => "3"@,
        Position::Fourth => "4"@,
        Position::Fifth => "5"@,
        Position::Sixth => "6"@,
        Position::Seventh => "7"@,
        Position::Eighth => "8"@,
        Position::Ninth => "9"@,
        Position::Tenth => "10"@,
        Position::Eleventh => "11"@,
        Position::Twelfth => "12"@,
    }
}

/// One race of a session: the course (absent when it was never detected)
/// and the finishing position.
#[derive(Debug, PartialEq, Eq)]
pub struct RaceResult {
    pub course: Option<Course>,
    pub position: Position,
}

impl Clone for RaceResult {
    fn clone(&self) -> (r: Self)
        ensures
            r == *self,
    {
        RaceResult { course: self.course.clone(), position: self.position }
    }
}

impl RaceResult {
    pub fn new(course: Option<Course>, position: Position) -> (r: RaceResult)
        ensures
            r.course == course,
            r.position == position,
    {
        RaceResult { course, position }
    }

    pub fn to_score(&self) -> (s: u32)
        ensures
            s == spec_position_score(self.position),
    {
        self.position.to_score()
    }

    /// The display name of the course, or a placeholder when none was
    /// detected.
    pub fn course_name(&self) -> (s: String)
        ensures
            s@ == match self.course {
                Some(c) => spec_course_display(c),
                None => "(empty)"@,
            },
    {
        match &self.course {
            Some(c) => c.display_name(),
            None => "(empty)".to_owned(),
        }
    }

    pub fn course(&self) -> (c: Option<Course>)
        ensures
            c == self.course,
    {
        self.course.clone()
    }

    pub fn position(&self) -> (p: Position)
        ensures
            p == self.position,
    {
        self.position
    }

    pub fn set_course(&mut self, course: Course)
        ensures
            final(self).course == Some(course),
            final(self).position == old(self).position,
    {
        self.course = Some(course);
    }

    pub fn set_position(&mut self, position: Position)
        ensures
            final(self).course == old(self).course,
            final(self).position == position,
    {
        self.position = position;
    }
}

} // verus!
