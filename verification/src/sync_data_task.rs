//! The scheduled synchronisation task and its validated fields.

use vstd::prelude::*;
use crate::text::{trim, trim_whitespace, lemma_trim_idempotent};

verus! {

/// A point in time, UTC, as whole seconds since the Unix epoch and the
/// nanoseconds past that second.
#[derive(Clone, Copy, Debug, PartialEq, Eq, PartialOrd, Ord, Hash)]
pub struct UtcTimestamp {
    pub secs: i64,
    pub nanos: u32,
}

/// The stored synchronisation task.
#[derive(Clone, Debug, PartialEq, Eq, PartialOrd, Ord, Hash)]
pub struct SyncDataTask {
    pub id: i64,
    pub name: String,
    pub interval_minutes: i32,
    pub status: bool,
    pub job_id: Option<String>,
    pub created_at: UtcTimestamp,
    pub updated_at: UtcTimestamp,
}

/// Fewest characters a task name may have.
pub const NAME_MIN_CHARS: usize = 4;

/// Most characters a task name may have.
pub const NAME_MAX_CHARS: usize = 20;

/// Why a task name was refused.
#[derive(Clone, Copy, Debug, PartialEq, Eq, Structural, Hash)]
pub enum SyncDataTaskNameError {
    NotEmptyViolated,
    LenCharMinViolated,
    LenCharMaxViolated,
}

/// The first rule that the sanitised name `t` breaks, in the order in which
/// the rules are checked: not empty, at least `NAME_MIN_CHARS` characters,
/// at most `NAME_MAX_CHARS` characters.
pub open spec fn name_violation(t: Seq<char>) -> Option<SyncDataTaskNameError> {
    if t.len() == 0 {
        Some(SyncDataTaskNameError::NotEmptyViolated)
    } else if t.len() < NAME_MIN_CHARS {
        Some(SyncDataTaskNameError::LenCharMinViolated)
    } else if t.len() > NAME_MAX_CHARS {
        Some(SyncDataTaskNameError::LenCharMaxViolated)
    } else {
        None
    }
}

/// What a valid task name is: already trimmed, and within the length bounds.
pub open spec fn is_valid_task_name(s: Seq<char>) -> bool {
    &&& trim(s) == s
    &&& name_violation(s) is None
}

/// A task name: trimmed of surrounding white space, 4 to 20 characters.
#[derive(Debug, PartialEq, Eq, PartialOrd, Ord, Hash)]
pub struct SyncDataTaskName(String);

impl Clone for SyncDataTaskName {
    fn clone(&self) -> (r: SyncDataTaskName)
        ensures
            r@ == self@,
    {
        proof {
            use_type_invariant(self);
        }
        SyncDataTaskName(self.0.clone())
    }
}

impl View for SyncDataTaskName {
    type V = Seq<char>;

    closed spec fn view(&self) -> Seq<char> {
        self.0@
    }
}

impl SyncDataTaskName {
    #[verifier::type_invariant]
    closed spec fn inv(self) -> bool {
        is_valid_task_name(self.0@)
    }

    /// Trims `raw`, then validates it; the trimmed text becomes the name.
    pub fn try_new(raw: &str) -> (r: Result<SyncDataTaskName, SyncDataTaskNameError>)
        ensures
            match name_violation(trim(raw@)) {
                Some(e) => r == Err::<SyncDataTaskName, SyncDataTaskNameError>(e),
                None => r matches Ok(n) && n@ == trim(raw@),
            },
            4 <= trim(raw@).len() <= 20 <==> r is Ok,
            r matches Ok(n) ==> n@ == trim(raw@),
            trim(raw@).len() == 0 <==> r == Err::<SyncDataTaskName, SyncDataTaskNameError>(
                SyncDataTaskNameError::NotEmptyViolated,
            ),
            1 <= trim(raw@).len() < 4 <==> r == Err::<SyncDataTaskName, SyncDataTaskNameError>(
                SyncDataTaskNameError::LenCharMinViolated,
            ),
            trim(raw@).len() > 20 <==> r == Err::<SyncDataTaskName, SyncDataTaskNameError>(
                SyncDataTaskNameError::LenCharMaxViolated,
            ),
    {
        let value = trim_whitespace(raw);
        let chars = value.as_str().unicode_len();
        if chars == 0 {
            return Err(SyncDataTaskNameError::NotEmptyViolated);
        }
        if chars < NAME_MIN_CHARS {
            return Err(SyncDataTaskNameError::LenCharMinViolated);
        }
        if chars > NAME_MAX_CHARS {
            return Err(SyncDataTaskNameError::LenCharMaxViolated);
        }
        proof {
            lemma_trim_idempotent(raw@);
        }
        Ok(SyncDataTaskName(value))
    }

    /// The name's text.
    pub fn into_inner(self) -> (r: String)
        ensures
            r@ == self@,
            is_valid_task_name(r@),
    {
        proof {
            use_type_invariant(&self);
        }
        self.0
    }

    /// The name's text, borrowed.
    pub fn as_str(&self) -> (r: &str)
        ensures
            r@ == self@,
            is_valid_task_name(r@),
    {
        proof {
            use_type_invariant(self);
        }
        self.0.as_str()
    }
}

/// A name that was accepted once is accepted again, unchanged, when it is
/// validated anew.
pub proof fn lemma_accepted_name_revalidates(raw: Seq<char>)
    requires
        name_violation(trim(raw)) is None,
    ensures
        name_violation(trim(trim(raw))) is None,
        trim(trim(raw)) == trim(raw),
        is_valid_task_name(trim(raw)),
{
    lemma_trim_idempotent(raw);
}

/// A name is accepted exactly when its trimmed text has 4 to 20 characters;
/// an empty text breaks the first rule, 1 to 3 characters the second, and
/// more than 20 the third.
pub proof fn lemma_name_rules(t: Seq<char>)
    ensures
        name_violation(t) is None <==> 4 <= t.len() <= 20,
        name_violation(t) == Some(SyncDataTaskNameError::NotEmptyViolated) <==> t.len() == 0,
        name_violation(t) == Some(SyncDataTaskNameError::LenCharMinViolated) <==> 1 <= t.len() < 4,
        name_violation(t) == Some(SyncDataTaskNameError::LenCharMaxViolated) <==> t.len() > 20,
{
}

/// Least interval, in minutes.
pub const INTERVAL_MIN_MINUTES: u32 = 1;

/// Greatest interval, in minutes: twelve hours.
pub const INTERVAL_MAX_MINUTES: u32 = 720;

/// Why an interval was refused.
#[derive(Clone, Copy, Debug, PartialEq, Eq, Structural, Hash)]
pub enum SyncDataTaskIntervalMinutesError {
    GreaterOrEqualViolated,
    LessOrEqualViolated,
}

/// The first bound that `v` breaks: the lower bound is checked first.
pub open spec fn interval_violation(v: u32) -> Option<SyncDataTaskIntervalMinutesError> {
    if v < INTERVAL_MIN_MINUTES {
        Some(SyncDataTaskIntervalMinutesError::GreaterOrEqualViolated)
    } else if v > INTERVAL_MAX_MINUTES {
        Some(SyncDataTaskIntervalMinutesError::LessOrEqualViolated)
    } else {
        None
    }
}

/// An interval is accepted exactly when it lies from 1 to 720 minutes; below
/// that the lower bound is broken, above it the upper.
pub proof fn lemma_interval_rules(v: u32)
    ensures
        interval_violation(v) is None <==> 1 <= v <= 720,
        interval_violation(v) == Some(SyncDataTaskIntervalMinutesError::GreaterOrEqualViolated) <==> v < 1,
        interval_violation(v) == Some(SyncDataTaskIntervalMinutesError::LessOrEqualViolated) <==> v > 720,
{
}

/// A synchronisation interval in minutes, from 1 to 720.
#[derive(Clone, Copy, Debug, PartialEq, Eq, PartialOrd, Ord, Hash)]
pub struct SyncDataTaskIntervalMinutes(u32);

impl View for SyncDataTaskIntervalMinutes {
    type V = u32;

    closed spec fn view(&self) -> u32 {
        self.0
    }
}

impl SyncDataTaskIntervalMinutes {
    #[verifier::type_invariant]
    closed spec fn inv(self) -> bool {
        interval_violation(self.0) is None
    }

    /// Validates `value` against both bounds.
    pub fn try_new(value: u32) -> (r: Result<SyncDataTaskIntervalMinutes, SyncDataTaskIntervalMinutesError>)
        ensures
            match interval_violation(value) {
                Some(e) => r == Err::<SyncDataTaskIntervalMinutes, SyncDataTaskIntervalMinutesError>(e),
                None => r matches Ok(m) && m@ == value,
            },
            1 <= value <= 720 <==> r is Ok,
            r matches Ok(m) ==> m@ == value,
            value < 1 <==> r == Err::<SyncDataTaskIntervalMinutes, SyncDataTaskIntervalMinutesError>(
                SyncDataTaskIntervalMinutesError::GreaterOrEqualViolated,
            ),
            value > 720 <==> r == Err::<SyncDataTaskIntervalMinutes, SyncDataTaskIntervalMinutesError>(
                SyncDataTaskIntervalMinutesError::LessOrEqualViolated,
            ),
    {
        if value < INTERVAL_MIN_MINUTES {
            return Err(SyncDataTaskIntervalMinutesError::GreaterOrEqualViolated);
        }
        if value > INTERVAL_MAX_MINUTES {
            return Err(SyncDataTaskIntervalMinutesError::LessOrEqualViolated);
        }
        Ok(SyncDataTaskIntervalMinutes(value))
    }

    /// The number of minutes.
    pub fn into_inner(self) -> (r: u32)
        ensures
            r == self@,
            INTERVAL_MIN_MINUTES <= r <= INTERVAL_MAX_MINUTES,
            1 <= r <= 720,
    {
        proof {
            use_type_invariant(&self);
        }
        self.0
    }

    /// The number of minutes as the signed integer under which it is stored;
    /// every interval fits.
    pub fn as_i32(&self) -> (r: i32)
        ensures
            r as int == self@ as int,
    {
        proof {
            use_type_invariant(self);
        }
        self.0 as i32
    }
}

/// What a caller asks for to create a synchronisation task.
#[derive(Clone, Debug, PartialEq, Eq, PartialOrd, Ord, Hash)]
pub struct CreateSyncDataTaskRequest {
    pub name: SyncDataTaskName,
    pub interval_minutes: SyncDataTaskIntervalMinutes,
    pub status: bool,
    pub job_id: Option<String>,
}

impl CreateSyncDataTaskRequest {
    /// A request for a task with no scheduled job yet.
    pub fn new(
        name: SyncDataTaskName,
        interval_minutes: SyncDataTaskIntervalMinutes,
        status: bool,
    ) -> (r: CreateSyncDataTaskRequest)
        ensures
            r.name == name,
            r.interval_minutes == interval_minutes,
            r.status == status,
            r.job_id is None,
    {
        CreateSyncDataTaskRequest { name, interval_minutes, status, job_id: None }
    }
}

} // verus!
