//! The per-session match result aggregate.
//!
//! A session accumulates one [`RaceResult`] per finished race. While a
//! race is underway and its course is already known, the course waits in
//! `current_course`; the moment the finishing position is recorded, a race
//! result is appended and `current_course` clears. Recording a position
//! with no course pending is a no-op, so a race is never appended twice
//! and never appended without having been opened.

use vstd::prelude::*;

use crate::courses::Course;
use crate::race_result::Position;
use crate::race_result::RaceResult;
use crate::race_result::spec_position_score;

verus! {

/// The accumulating record of all races of the current play session.
#[derive(Debug, PartialEq, Eq)]
pub struct MogiResult {
    pub races: Vec<RaceResult>,
    pub current_course: Option<Course>,
    pub created_at_ms: u64,
}

/// The total score of the first `n` races.
pub open spec fn spec_score_prefix(races: Seq<RaceResult>, n: int) -> int
    decreases n,
{
    if n <= 0 {
        0
    } else {
        spec_score_prefix(races, n - 1) + spec_position_score(races[n - 1].position)
    }
}

/// The total score of a race list: the sum of its positions' points.
pub open spec fn spec_total_score(races: Seq<RaceResult>) -> int {
    spec_score_prefix(races, races.len() as int)
}

/// Score prefixes grow with the prefix.
proof fn lemma_score_prefix_mono(races: Seq<RaceResult>, n: int, m: int)
    requires
        0 <= n <= m,
    ensures
        spec_score_prefix(races, n) <= spec_score_prefix(races, m),
    decreases m,
{
    if n < m {
        lemma_score_prefix_mono(races, n, m - 1);
    }
}

/// Relies on `std::time::SystemTime::now`: the wall clock, read as whole
/// milliseconds since the Unix epoch (0 when the clock reads earlier).
#[verifier::external_body]
fn now_millis() -> u64 {
    match std::time::SystemTime::now().duration_since(std::time::UNIX_EPOCH) {
        Ok(d) => d.as_millis() as u64,
        Err(_) => 0,
    }
}

impl Clone for MogiResult {
    fn clone(&self) -> (r: Self)
        ensures
            r.races@ == self.races@,
            r.current_course == self.current_course,
            r.created_at_ms == self.created_at_ms,
    {
        let races = self.races.clone();
        proof {
            assert forall|i: int| 0 <= i < races@.len() implies races@[i] == self.races@[i] by {
                assert(vstd::pervasive::cloned::<RaceResult>(self.races@[i], races@[i]));
            }
            assert(races@ =~= self.races@);
        }
        MogiResult {
            races,
            current_course: self.current_course.clone(),
            created_at_ms: self.created_at_ms,
        }
    }
}

impl MogiResult {
    /// A fresh session: no races, no course pending, created now.
    pub fn new() -> (r: MogiResult)
        ensures
            r.races@ == Seq::<RaceResult>::empty(),
            r.current_course is None,
    {
        MogiResult { races: Vec::new(), current_course: None, created_at_ms: now_millis() }
    }

    /// Opens a race: the detected course waits for its position.
    pub fn set_current_course(&mut self, course: Course)
        ensures
            final(self).races == old(self).races,
            final(self).current_course == Some(course),
            final(self).created_at_ms == old(self).created_at_ms,
    {
        self.current_course = Some(course);
    }

    /// Records the finishing position of the pending race: appends a race
    /// result carrying the pending course and clears it. With no course
    /// pending, nothing changes.
    pub fn set_current_position(&mut self, position: Position)
        ensures
            match old(self).current_course {
                Some(c) => {
                    &&& final(self).races@ == old(self).races@.push(
                        RaceResult { course: Some(c), position },
                    )
                    &&& final(self).current_course is None
                },
                None => *final(self) == *old(self),
            },
            final(self).created_at_ms == old(self).created_at_ms,
    {
        match &self.current_course {
            Some(c) => {
                let race = RaceResult::new(Some(c.clone()), position);
                self.races.push(race);
                self.current_course = None;
            },
            None => {},
        }
    }

    /// Abandons the pending race, if any.
    pub fn reset_current_course(&mut self)
        ensures
            final(self).races == old(self).races,
            final(self).current_course is None,
            final(self).created_at_ms == old(self).created_at_ms,
    {
        self.current_course = None;
    }

    /// The races recorded so far, in order.
    pub fn iter_races(&self) -> (r: &Vec<RaceResult>)
        ensures
            r@ == self.races@,
    {
        &self.races
    }

    /// The course of the race underway, if one is pending.
    pub fn current_course(&self) -> (r: &Option<Course>)
        ensures
            *r == self.current_course,
    {
        &self.current_course
    }

    /// Rewrites the course of an already recorded race.
    pub fn set_course(&mut self, index: usize, course: Course)
        requires
            index < old(self).races@.len(),
        ensures
            final(self).races@ == old(self).races@.update(
                index as int,
                RaceResult { course: Some(course), position: old(self).races@[index as int].position },
            ),
            final(self).current_course == old(self).current_course,
            final(self).created_at_ms == old(self).created_at_ms,
    {
        let race = &mut self.races[index];
        race.set_course(course);
    }

    /// Rewrites the position of an already recorded race.
    pub fn set_position(&mut self, index: usize, position: Position)
        requires
            index < old(self).races@.len(),
        ensures
            final(self).races@ == old(self).races@.update(
                index as int,
                RaceResult { course: old(self).races@[index as int].course, position },
            ),
            final(self).current_course == old(self).current_course,
            final(self).created_at_ms == old(self).created_at_ms,
    {
        let race = &mut self.races[index];
        race.set_position(position);
    }

    /// The sum of the points of all recorded races.
    pub fn total_score(&self) -> (s: u32)
        requires
            spec_total_score(self.races@) <= u32::MAX,
        ensures
            s == spec_total_score(self.races@),
    {
        let n = self.races.len();
        let mut s: u32 = 0;
        let mut i: usize = 0;
        while i < n
            invariant
                n == self.races@.len(),
                i <= n,
                s == spec_score_prefix(self.races@, i as int),
                spec_total_score(self.races@) <= u32::MAX,
            decreases n - i,
        {
            proof {
                lemma_score_prefix_mono(self.races@, i + 1, n as int);
            }
            s = s + self.races[i].to_score();
            i = i + 1;
        }
        s
    }
}

} // verus!
