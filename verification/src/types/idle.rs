//! Idle actions and how a configured idle behaviour resolves to them.

use vstd::prelude::*;
use crate::text::str_equal;

verus! {

/// What an idle timeout does (`none` in the config file is `NoAction`).
#[derive(Debug, Clone, Copy, PartialEq, Eq, Hash, Structural)]
pub enum IdleActionKind {
    /// Nothing happens.
    NoAction,
    Command,
    Lock,
    ScreenOff,
    ScreenOn,
    Suspend,
    LockAndSuspend,
}

impl IdleActionKind {
    /// The variant a missing setting takes.
    pub open spec fn spec_default() -> IdleActionKind {
        IdleActionKind::NoAction
    }
}

impl Default for IdleActionKind {
    fn default() -> (r: Self)
        ensures
            r == IdleActionKind::NoAction,
    {
        IdleActionKind::NoAction
    }
}

/// An idle action to perform.
#[derive(Debug, Clone, PartialEq, Eq)]
pub struct IdleActionRequest {
    pub kind: IdleActionKind,
    pub command: String,
    pub lock_before_suspend: bool,
}

impl IdleActionRequest {
    /// Every field holds its default value.
    pub open spec fn has_default_values(&self) -> bool {
        &&& self.kind == IdleActionKind::spec_default()
        &&& self.command@.len() == 0
        &&& self.lock_before_suspend
    }
}

impl Default for IdleActionRequest {
    fn default() -> (r: Self)
        ensures
            r.has_default_values(),
    {
        IdleActionRequest {
            kind: IdleActionKind::default(),
            command: String::new(),
            lock_before_suspend: true,
        }
    }
}

/// What an idle behaviour does when the timeout fires and when activity resumes.
#[derive(Debug, Clone, PartialEq, Eq)]
pub struct ResolvedIdleBehavior {
    pub idle_action: IdleActionRequest,
    pub resume_action: IdleActionRequest,
    pub resume_command: String,
}

impl ResolvedIdleBehavior {
    /// Every field holds its default value.
    pub open spec fn has_default_values(&self) -> bool {
        &&& self.idle_action.has_default_values()
        &&& self.resume_action.has_default_values()
        &&& self.resume_command@.len() == 0
    }
}

impl Default for ResolvedIdleBehavior {
    fn default() -> (r: Self)
        ensures
            r.has_default_values(),
    {
        ResolvedIdleBehavior {
            idle_action: IdleActionRequest::default(),
            resume_action: IdleActionRequest::default(),
            resume_command: String::new(),
        }
    }
}

/// A non-command idle action.
pub fn idle_action(kind: IdleActionKind, lock_before_suspend: bool) -> (r: IdleActionRequest)
    ensures
        r.kind == kind,
        r.command@.len() == 0,
        r.lock_before_suspend == lock_before_suspend,
{
    IdleActionRequest { kind, command: String::new(), lock_before_suspend }
}

/// An idle action that runs `command`.
pub fn command_idle_action(command: String) -> (r: IdleActionRequest)
    ensures
        r.kind == IdleActionKind::Command,
        r.command@ == command@,
        r.lock_before_suspend,
{
    IdleActionRequest { kind: IdleActionKind::Command, command, lock_before_suspend: true }
}

/// The action name after normalisation: `suspend` with locking first is `lock_and_suspend`.
pub open spec fn spec_normalized_idle_action(action: Seq<char>, lock_before_suspend: bool) -> Seq<char> {
    if action == "suspend"@ && lock_before_suspend {
        "lock_and_suspend"@
    } else {
        action
    }
}

/// Normalises an idle behaviour's action name: `suspend` with locking first
/// becomes `lock_and_suspend`.
pub fn normalize_idle_behavior_action(action: &mut String, lock_before_suspend: bool)
    ensures
        final(action)@ == spec_normalized_idle_action(old(action)@, lock_before_suspend),
{
    if lock_before_suspend && str_equal(action.as_str(), "suspend") {
        *action = "lock_and_suspend".to_owned();
    }
}

/// The idle and resume actions of a behaviour with the given action name,
/// lock setting, command and resume command.
pub open spec fn spec_resolved_kinds(act: Seq<char>) -> Option<(IdleActionKind, IdleActionKind)> {
    if act == "lock"@ {
        Some((IdleActionKind::Lock, IdleActionKind::NoAction))
    } else if act == "screen_off"@ {
        Some((IdleActionKind::ScreenOff, IdleActionKind::ScreenOn))
    } else if act == "suspend"@ {
        Some((IdleActionKind::Suspend, IdleActionKind::NoAction))
    } else if act == "lock_and_suspend"@ {
        Some((IdleActionKind::LockAndSuspend, IdleActionKind::NoAction))
    } else {
        None
    }
}

fn resolve_actions(
    action: &str,
    lock_before_suspend: bool,
    command: &str,
    resume_command: &str,
) -> (r: ResolvedIdleBehavior)
    ensures
        r.resume_command@ == resume_command@,
        r.resume_action.command@.len() == 0,
        r.resume_action.lock_before_suspend,
        match spec_resolved_kinds(spec_normalized_idle_action(action@, lock_before_suspend)) {
            Some((idle, resume)) => {
                &&& r.idle_action.kind == idle
                &&& r.idle_action.command@.len() == 0
                &&& r.idle_action.lock_before_suspend
                &&& r.resume_action.kind == resume
            },
            None => {
                &&& r.idle_action.kind == IdleActionKind::Command
                &&& r.idle_action.command@ == command@
                &&& r.idle_action.lock_before_suspend
                &&& r.resume_action.kind == IdleActionKind::NoAction
            },
        },
{
    let lock_and_suspend = str_equal(action, "suspend") && lock_before_suspend;
    let ghost act = spec_normalized_idle_action(action@, lock_before_suspend);
    let resume_default = IdleActionRequest {
        kind: IdleActionKind::NoAction,
        command: String::new(),
        lock_before_suspend: true,
    };
    proof {
        reveal_strlit("lock");
        reveal_strlit("screen_off");
        reveal_strlit("suspend");
        reveal_strlit("lock_and_suspend");
        assert("screen_off"@.len() != "lock"@.len());
        assert("suspend"@.len() != "lock"@.len());
        assert("suspend"@.len() != "screen_off"@.len());
        assert("lock_and_suspend"@.len() != "lock"@.len());
        assert("lock_and_suspend"@.len() != "screen_off"@.len());
        assert("lock_and_suspend"@.len() != "suspend"@.len());
    }
    if lock_and_suspend || str_equal(action, "lock_and_suspend") {
        return ResolvedIdleBehavior {
            idle_action: idle_action(IdleActionKind::LockAndSuspend, true),
            resume_action: resume_default,
            resume_command: resume_command.to_owned(),
        };
    }
    if str_equal(action, "lock") {
        return ResolvedIdleBehavior {
            idle_action: idle_action(IdleActionKind::Lock, true),
            resume_action: resume_default,
            resume_command: resume_command.to_owned(),
        };
    }
    if str_equal(action, "screen_off") {
        return ResolvedIdleBehavior {
            idle_action: idle_action(IdleActionKind::ScreenOff, true),
            resume_action: idle_action(IdleActionKind::ScreenOn, true),
            resume_command: resume_command.to_owned(),
        };
    }
    if str_equal(action, "suspend") {
        return ResolvedIdleBehavior {
            idle_action: idle_action(IdleActionKind::Suspend, true),
            resume_action: resume_default,
            resume_command: resume_command.to_owned(),
        };
    }
    ResolvedIdleBehavior {
        idle_action: command_idle_action(command.to_owned()),
        resume_action: resume_default,
        resume_command: resume_command.to_owned(),
    }
}

/// One idle behaviour: after `timeout_seconds` (the bits of a
/// double-precision number) of inactivity, perform `action`.
pub struct IdleBehaviorConfig {
    pub name: String,
    pub enabled: bool,
    pub timeout_seconds: u64,
    pub action: String,
    pub command: String,
    pub resume_command: String,
    pub lock_before_suspend: bool,
}

impl Default for IdleBehaviorConfig {
    /// An unnamed, enabled behaviour with no timeout, action or commands, that locks before suspending.
    fn default() -> (r: Self)
        ensures
            r.name@.len() == 0,
            r.enabled,
            r.timeout_seconds == 0,
            r.action@.len() == 0,
            r.command@.len() == 0,
            r.resume_command@.len() == 0,
            r.lock_before_suspend,
    {
        IdleBehaviorConfig {
            name: String::new(),
            enabled: true,
            timeout_seconds: 0,
            action: String::new(),
            command: String::new(),
            resume_command: String::new(),
            lock_before_suspend: true,
        }
    }
}

/// Resolves an idle behaviour into the actions it performs. A named action
/// maps to its kind (a screen-off is undone by a screen-on on resume; a
/// suspend that locks first is a lock-and-suspend); any other name runs the
/// behaviour's command.
pub fn resolve_idle_behavior_actions(behavior: &IdleBehaviorConfig) -> (r: ResolvedIdleBehavior)
    ensures
        r.resume_command@ == behavior.resume_command@,
        r.resume_action.command@.len() == 0,
        r.resume_action.lock_before_suspend,
        match spec_resolved_kinds(spec_normalized_idle_action(behavior.action@, behavior.lock_before_suspend)) {
            Some((idle, resume)) => {
                &&& r.idle_action.kind == idle
                &&& r.idle_action.command@.len() == 0
                &&& r.idle_action.lock_before_suspend
                &&& r.resume_action.kind == resume
            },
            None => {
                &&& r.idle_action.kind == IdleActionKind::Command
                &&& r.idle_action.command@ == behavior.command@
                &&& r.idle_action.lock_before_suspend
                &&& r.resume_action.kind == IdleActionKind::NoAction
            },
        },
{
    resolve_actions(
        behavior.action.as_str(),
        behavior.lock_before_suspend,
        behavior.command.as_str(),
        behavior.resume_command.as_str(),
    )
}

/// Bits of the double-precision `600.0`.
pub const SIX_HUNDRED_SECONDS: u64 = 0x4082_c000_0000_0000u64;

/// Bits of the double-precision `660.0`.
pub const SIX_HUNDRED_SIXTY_SECONDS: u64 = 0x4084_a000_0000_0000u64;

/// Bits of the double-precision `900.0`.
pub const NINE_HUNDRED_SECONDS: u64 = 0x408c_2000_0000_0000u64;

/// The idle behaviours a configuration starts with: lock after 600 s, screen
/// off after 660 s, lock and suspend after 900 s, all disabled.
pub fn default_idle_behaviors() -> (r: Vec<IdleBehaviorConfig>)
    ensures
        r@.len() == 3,
        r@[0].name@ == "lock"@ && r@[0].action@ == "lock"@ && r@[0].timeout_seconds == SIX_HUNDRED_SECONDS,
        r@[1].name@ == "screen-off"@ && r@[1].action@ == "screen_off"@ && r@[1].timeout_seconds == SIX_HUNDRED_SIXTY_SECONDS,
        r@[2].name@ == "lock-and-suspend"@ && r@[2].action@ == "lock_and_suspend"@ && r@[2].timeout_seconds == NINE_HUNDRED_SECONDS,
        forall|i: int| 0 <= i < 3 ==> {
            &&& !(#[trigger] r@[i]).enabled
            &&& r@[i].command@.len() == 0
            &&& r@[i].resume_command@.len() == 0
            &&& r@[i].lock_before_suspend
        },
{
    let mut r: Vec<IdleBehaviorConfig> = Vec::new();
    r.push(IdleBehaviorConfig {
        name: "lock".to_owned(),
        enabled: false,
        timeout_seconds: SIX_HUNDRED_SECONDS,
        action: "lock".to_owned(),
        command: String::new(),
        resume_command: String::new(),
        lock_before_suspend: true,
    });
    r.push(IdleBehaviorConfig {
        name: "screen-off".to_owned(),
        enabled: false,
        timeout_seconds: SIX_HUNDRED_SIXTY_SECONDS,
        action: "screen_off".to_owned(),
        command: String::new(),
        resume_command: String::new(),
        lock_before_suspend: true,
    });
    r.push(IdleBehaviorConfig {
        name: "lock-and-suspend".to_owned(),
        enabled: false,
        timeout_seconds: NINE_HUNDRED_SECONDS,
        action: "lock_and_suspend".to_owned(),
        command: String::new(),
        resume_command: String::new(),
        lock_before_suspend: true,
    });
    r
}

} // verus!
