//! Process-wide state: the lifecycle guard, health reporting and pacing.
use crate::error::CalError;
use vstd::prelude::*;

verus! {

/// The health a process reports.
#[derive(Debug, Clone, Copy, PartialEq, Eq)]
pub enum NodeState {
    Healthy,
    Critical,
    Failed,
    Unknown,
    Warning,
}

/// How severe a reported health state is, in ascending order.
#[derive(Debug, Clone, Copy, PartialEq, Eq)]
pub enum SeverityLevel {
    Level1,
    Level2,
    Level3,
    Level4,
    Level5,
}

/// The bus's code for a health state.
pub open spec fn spec_state_code(s: NodeState) -> i32 {
    match s {
        NodeState::Unknown => 0,
        NodeState::Healthy => 1,
        NodeState::Warning => 2,
        NodeState::Critical => 3,
        NodeState::Failed => 4,
    }
}

/// The bus's code for a severity level.
pub open spec fn spec_level_code(l: SeverityLevel) -> i32 {
    match l {
        SeverityLevel::Level1 => 1,
        SeverityLevel::Level2 => 2,
        SeverityLevel::Level3 => 3,
        SeverityLevel::Level4 => 4,
        SeverityLevel::Level5 => 5,
    }
}

impl NodeState {
    pub fn native_code(self) -> (r: i32)
        ensures
            r == spec_state_code(self),
    {
        match self {
            NodeState::Healthy => 1,
            NodeState::Critical => 3,
            NodeState::Failed => 4,
            NodeState::Unknown => 0,
            NodeState::Warning => 2,
        }
    }
}

impl SeverityLevel {
    pub fn native_code(self) -> (r: i32)
        ensures
            r == spec_level_code(self),
    {
        match self {
            SeverityLevel::Level1 => 1,
            SeverityLevel::Level2 => 2,
            SeverityLevel::Level3 => 3,
            SeverityLevel::Level4 => 4,
            SeverityLevel::Level5 => 5,
        }
    }
}

/// Whether text can be handed to the bus, which takes it without NUL characters.
pub open spec fn is_c_text(s: Seq<char>) -> bool {
    !s.contains('\0')
}

/// Checks that text can be handed to the bus.
pub fn check_c_text(s: &str) -> (r: Result<(), CalError>)
    ensures
        r is Ok <==> is_c_text(s@),
        r is Err ==> r matches Err(CalError::Unknown(_)),
{
    let n = s.unicode_len();
    let mut i: usize = 0;
    while i < n
        invariant
            n == s@.len(),
            i <= n,
            forall|j: int| 0 <= j < i ==> s@[j] != '\0',
        decreases n - i,
    {
        if s.get_char(i) == '\0' {
            return Err(CalError::Unknown(String::from_str("text holds a NUL character")));
        }
        i = i + 1;
    }
    Ok(())
}

/// How the bus answered a request to initialize the process.
#[derive(Debug, Clone, Copy, PartialEq, Eq)]
pub enum InitStatus {
    /// This request initialized the bus.
    Fresh,
    /// The bus had already been initialized; that is no failure.
    AlreadyInitialized,
    /// A status the bus does not document, taken as success.
    Unexpected(i32),
}

/// The bus's status for a failed initialization.
pub const INIT_FAILED: i32 = -1;

/// Reads the status of an initialization: only an explicit failure is an error.
pub fn init_outcome(status: i32) -> (r: Result<InitStatus, CalError>)
    ensures
        status == INIT_FAILED <==> r == Err::<InitStatus, CalError>(CalError::InitializationFailed),
        status == 0 ==> r == Ok::<InitStatus, CalError>(InitStatus::Fresh),
        status == 1 ==> r == Ok::<InitStatus, CalError>(InitStatus::AlreadyInitialized),
        status != INIT_FAILED && status != 0 && status != 1 ==> r == Ok::<InitStatus, CalError>(
            InitStatus::Unexpected(status),
        ),
{
    if status == INIT_FAILED {
        Err(CalError::InitializationFailed)
    } else if status == 0 {
        Ok(InitStatus::Fresh)
    } else if status == 1 {
        Ok(InitStatus::AlreadyInitialized)
    } else {
        Ok(InitStatus::Unexpected(status))
    }
}

/// The lifecycle guard: it stands for one active period of the bus in this
/// process, and holds the health last reported.
pub struct Cal {
    unit_name: String,
    state: NodeState,
    level: SeverityLevel,
    status_msg: String,
    active: bool,
}

impl Cal {
    pub closed spec fn spec_unit_name(&self) -> Seq<char> {
        self.unit_name@
    }

    pub closed spec fn spec_state(&self) -> NodeState {
        self.state
    }

    pub closed spec fn spec_level(&self) -> SeverityLevel {
        self.level
    }

    pub closed spec fn spec_status(&self) -> Seq<char> {
        self.status_msg@
    }

    pub closed spec fn spec_active(&self) -> bool {
        self.active
    }

    /// The guard for a process known to the bus as `unit_name`, whose
    /// initialization answered `init_status`. A new guard reports itself
    /// healthy, at the lowest level, with "ok".
    pub fn new(unit_name: &str, init_status: i32) -> (r: Result<Cal, CalError>)
        ensures
            !is_c_text(unit_name@) ==> r matches Err(CalError::Unknown(_)),
            is_c_text(unit_name@) ==> (init_status == INIT_FAILED <==> r is Err),
            is_c_text(unit_name@) && r is Err ==> r == Err::<Cal, CalError>(
                CalError::InitializationFailed,
            ),
            r matches Ok(c) ==> {
                &&& c.spec_active()
                &&& c.spec_unit_name() == unit_name@
                &&& c.spec_state() == NodeState::Healthy
                &&& c.spec_level() == SeverityLevel::Level1
                &&& c.spec_status() == "ok"@
            },
    {
        if let Err(e) = check_c_text(unit_name) {
            return Err(e);
        }
        match init_outcome(init_status) {
            Err(e) => Err(e),
            Ok(_) => Ok(
                Cal {
                    unit_name: String::from_str(unit_name),
                    state: NodeState::Healthy,
                    level: SeverityLevel::Level1,
                    status_msg: String::from_str("ok"),
                    active: true,
                },
            ),
        }
    }

    /// Records a new health report; fails, changing nothing, where `info`
    /// cannot be handed to the bus.
    pub fn set_state(&mut self, state: NodeState, level: SeverityLevel, info: &str) -> (r: Result<
        (),
        CalError,
    >)
        ensures
            r is Ok <==> is_c_text(info@),
            r is Ok ==> {
                &&& final(self).spec_state() == state
                &&& final(self).spec_level() == level
                &&& final(self).spec_status() == info@
            },
            r is Err ==> *final(self) == *old(self),
            final(self).spec_active() == old(self).spec_active(),
            final(self).spec_unit_name() == old(self).spec_unit_name(),
    {
        match check_c_text(info) {
            Err(e) => Err(e),
            Ok(()) => {
                self.state = state;
                self.level = level;
                self.status_msg = String::from_str(info);
                Ok(())
            },
        }
    }

    /// Ends the active period; the bus is finalized alongside.
    pub fn finalize(&mut self)
        ensures
            !final(self).spec_active(),
            final(self).spec_unit_name() == old(self).spec_unit_name(),
            final(self).spec_state() == old(self).spec_state(),
            final(self).spec_level() == old(self).spec_level(),
            final(self).spec_status() == old(self).spec_status(),
    {
        self.active = false;
    }

    pub fn is_active(&self) -> (r: bool)
        ensures
            r == self.spec_active(),
    {
        self.active
    }

    pub fn unit_name(&self) -> (r: &str)
        ensures
            r@ == self.spec_unit_name(),
    {
        self.unit_name.as_str()
    }

    pub fn state(&self) -> (r: NodeState)
        ensures
            r == self.spec_state(),
    {
        self.state
    }

    pub fn level(&self) -> (r: SeverityLevel)
        ensures
            r == self.spec_level(),
    {
        self.level
    }

    pub fn status_message(&self) -> (r: &str)
        ensures
            r@ == self.spec_status(),
    {
        self.status_msg.as_str()
    }
}

/// Whether the bus, asked for its health, answered that it is operational.
pub fn ok(native_status: i32) -> (r: bool)
    ensures
        r == (native_status != 0),
{
    native_status != 0
}

/// The largest pause, in milliseconds, that the bus's sleep takes.
pub const MAX_SLEEP_MS: i64 = 0x7fff_ffff_ffff_ffff;

/// The pause handed to the bus for a duration of `millis` milliseconds;
/// durations beyond what the bus takes are cut to the largest it takes.
pub fn sleep_millis(millis: u128) -> (r: i64)
    ensures
        millis <= MAX_SLEEP_MS ==> r == millis,
        millis > MAX_SLEEP_MS ==> r == MAX_SLEEP_MS,
{
    if millis <= MAX_SLEEP_MS as u128 {
        millis as i64
    } else {
        MAX_SLEEP_MS
    }
}

} // verus!
