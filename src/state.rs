use vstd::prelude::*;

verus! {

/// The lifecycle state of the supervised instance.
#[derive(Clone, Copy, Debug, PartialEq, Eq, Structural)]
pub enum InstanceState {
    Pending,
    Running,
    ShuttingDown,
    Terminated,
    Stopping,
    Stopped,
}

/// A raw state name that is not one of the six known ones.
#[derive(Debug)]
pub struct UnknownStateError {
    pub raw: String,
}

/// The name under which the control plane reports a state.
pub open spec fn state_name(s: InstanceState) -> Seq<char> {
    match s {
        InstanceState::Pending => "pending"@,
        InstanceState::Running => "running"@,
        InstanceState::ShuttingDown => "shutting-down"@,
        InstanceState::Terminated => "terminated"@,
        InstanceState::Stopping => "stopping"@,
        InstanceState::Stopped => "stopped"@,
    }
}

/// The state that a raw name denotes, if any.
pub open spec fn parse_state(raw: Seq<char>) -> Option<InstanceState> {
    if raw == state_name(InstanceState::Pending) {
        Some(InstanceState::Pending)
    } else if raw == state_name(InstanceState::Running) {
        Some(InstanceState::Running)
    } else if raw == state_name(InstanceState::ShuttingDown) {
        Some(InstanceState::ShuttingDown)
    } else if raw == state_name(InstanceState::Terminated) {
        Some(InstanceState::Terminated)
    } else if raw == state_name(InstanceState::Stopping) {
        Some(InstanceState::Stopping)
    } else if raw == state_name(InstanceState::Stopped) {
        Some(InstanceState::Stopped)
    } else {
        None
    }
}

/// In use: the instance is active or becoming active.
pub open spec fn in_use(s: InstanceState) -> bool {
    s is Pending || s is Running
}

/// Character-wise equality of two strings.
pub(crate) fn str_equal(a: &str, b: &str) -> (r: bool)
    ensures
        r == (a@ == b@),
{
    let n = a.unicode_len();
    if n != b.unicode_len() {
        return false;
    }
    let mut i: usize = 0;
    while i < n
        invariant
            n == a@.len(),
            n == b@.len(),
            i <= n,
            a@.subrange(0, i as int) == b@.subrange(0, i as int),
        decreases n - i,
    {
        if a.get_char(i) != b.get_char(i) {
            return false;
        }
        assert(a@.subrange(0, i + 1) == a@.subrange(0, i as int).push(a@[i as int]));
        assert(b@.subrange(0, i + 1) == b@.subrange(0, i as int).push(b@[i as int]));
        i = i + 1;
    }
    assert(a@ == a@.subrange(0, n as int));
    assert(b@ == b@.subrange(0, n as int));
    true
}

impl InstanceState {
    /// Parses a raw state name as the control plane reports it.
    pub fn from_str(input: &str) -> (r: Result<InstanceState, UnknownStateError>)
        ensures
            match parse_state(input@) {
                Some(s) => r == Ok::<InstanceState, UnknownStateError>(s),
                None => r is Err && r->Err_0.raw@ == input@,
            },
    {
        if str_equal(input, "pending") {
            Ok(InstanceState::Pending)
        } else if str_equal(input, "running") {
            Ok(InstanceState::Running)
        } else if str_equal(input, "shutting-down") {
            Ok(InstanceState::ShuttingDown)
        } else if str_equal(input, "terminated") {
            Ok(InstanceState::Terminated)
        } else if str_equal(input, "stopping") {
            Ok(InstanceState::Stopping)
        } else if str_equal(input, "stopped") {
            Ok(InstanceState::Stopped)
        } else {
            Err(UnknownStateError { raw: input.to_string() })
        }
    }

    /// The raw name of this state; the inverse of `from_str`.
    pub fn name(&self) -> (r: &'static str)
        ensures
            r@ == state_name(*self),
    {
        match self {
            InstanceState::Pending => "pending",
            InstanceState::Running => "running",
            InstanceState::ShuttingDown => "shutting-down",
            InstanceState::Terminated => "terminated",
            InstanceState::Stopping => "stopping",
            InstanceState::Stopped => "stopped",
        }
    }

    /// Whether the instance is active or becoming active (pending or running).
    pub fn is_in_use(&self) -> (r: bool)
        ensures
            r == in_use(*self),
    {
        match self {
            InstanceState::Pending | InstanceState::Running => true,
            _ => false,
        }
    }
}

/// Parsing is a bijection between the six raw names and the six states: each
/// state's name parses back to that state, a name that parses denotes exactly
/// that state, distinct states have distinct names, and every other string is
/// rejected.
pub proof fn lemma_parse_is_bijection()
    ensures
        forall|s: InstanceState| #[trigger] parse_state(state_name(s)) == Some(s),
        forall|raw: Seq<char>|
            #[trigger] parse_state(raw) is Some ==> raw == state_name(parse_state(raw)->0),
        forall|a: InstanceState, b: InstanceState|
            #[trigger] state_name(a) == #[trigger] state_name(b) ==> a == b,
        forall|raw: Seq<char>|
            #[trigger] parse_state(raw) is None <==> forall|s: InstanceState| raw != #[trigger] state_name(s),
{
    reveal_strlit("pending");
    reveal_strlit("running");
    reveal_strlit("shutting-down");
    reveal_strlit("terminated");
    reveal_strlit("stopping");
    reveal_strlit("stopped");
    assert("pending"@ != "running"@ && "pending"@ != "shutting-down"@ && "pending"@ != "terminated"@
        && "pending"@ != "stopping"@ && "pending"@ != "stopped"@) by {
        assert("pending"@[1] != "running"@[1]);
        assert("pending"@[0] != "shutting-down"@[0]);
        assert("pending"@[0] != "terminated"@[0]);
        assert("pending"@[0] != "stopping"@[0]);
        assert("pending"@[0] != "stopped"@[0]);
    }
    assert("running"@ != "shutting-down"@ && "running"@ != "terminated"@ && "running"@ != "stopping"@
        && "running"@ != "stopped"@) by {
        assert("running"@[0] != "shutting-down"@[0]);
        assert("running"@[0] != "terminated"@[0]);
        assert("running"@[0] != "stopping"@[0]);
        assert("running"@[0] != "stopped"@[0]);
    }
    assert("shutting-down"@ != "terminated"@ && "shutting-down"@ != "stopping"@
        && "shutting-down"@ != "stopped"@) by {
        assert("shutting-down"@[0] != "terminated"@[0]);
        assert("shutting-down"@[1] != "stopping"@[1]);
        assert("shutting-down"@[1] != "stopped"@[1]);
    }
    assert("terminated"@ != "stopping"@ && "terminated"@ != "stopped"@) by {
        assert("terminated"@[0] != "stopping"@[0]);
        assert("terminated"@[0] != "stopped"@[0]);
    }
    assert("stopping"@ != "stopped"@) by {
        assert("stopping"@[5] != "stopped"@[5]);
    }
}

} // verus!
