//! Which global capture shortcut is registered, and the decisions around
//! registering and releasing it.
//!
//! The host performs each registration with the desktop framework and
//! hands its answer back; the state changes only on that answer.

use vstd::prelude::*;
use crate::text::{prefixed, trim, trimmed};

verus! {

/// Message for a shortcut that is blank once trimmed.
pub const EMPTY_SHORTCUT: &'static str = "Shortcut cannot be empty";

/// Start of the message when the framework refuses a registration.
pub const REGISTER_FAILED: &'static str = "Failed to register shortcut: ";

/// Start of the message when the framework refuses a release.
pub const UNREGISTER_FAILED: &'static str = "Failed to unregister shortcut: ";

/// The registered shortcut, if any, seen as its characters.
pub open spec fn active_view(active: Option<String>) -> Option<Seq<char>> {
    match active {
        Some(s) => Some(s@),
        None => None,
    }
}

/// What to do on a request to register a shortcut.
pub enum RegisterStep {
    /// The request is blank once trimmed: refuse it with this message.
    Refuse(String),
    /// The requested shortcut is the one already registered: nothing to do.
    Unchanged,
    /// Release `release` first if there is one, whatever the framework
    /// answers to that, then register `shortcut`.
    Register { release: Option<String>, shortcut: String },
}

/// A register step seen through the characters of its texts.
pub enum StepView {
    Refuse(Seq<char>),
    Unchanged,
    Register(Option<Seq<char>>, Seq<char>),
}

impl View for RegisterStep {
    type V = StepView;

    open spec fn view(&self) -> StepView {
        match self {
            RegisterStep::Refuse(m) => StepView::Refuse(m@),
            RegisterStep::Unchanged => StepView::Unchanged,
            RegisterStep::Register { release, shortcut } => StepView::Register(
                active_view(*release),
                shortcut@,
            ),
        }
    }
}

/// The step owed to a request for `requested` while `active` is registered.
pub open spec fn register_step(active: Option<Seq<char>>, requested: Seq<char>) -> StepView {
    let shortcut = trimmed(requested);
    if shortcut.len() == 0 {
        StepView::Refuse(EMPTY_SHORTCUT@)
    } else if active == Some(shortcut) {
        StepView::Unchanged
    } else {
        StepView::Register(active, shortcut)
    }
}

/// The shortcut state of the running host.
pub struct ShortcutState {
    /// The shortcut registered with the framework, if any.
    pub active: Option<String>,
}

impl ShortcutState {
    /// No shortcut registered.
    pub fn new() -> (r: ShortcutState)
        ensures
            r.active is None,
    {
        ShortcutState { active: None }
    }

    /// Decides what a request to register `requested` asks for: the request
    /// is trimmed, refused when blank, and ignored when already registered.
    pub fn plan_register(&self, requested: &str) -> (r: RegisterStep)
        ensures
            r@ == register_step(active_view(self.active), requested@),
    {
        let normalized = trim(requested).to_owned();
        if normalized.as_str().is_empty() {
            return RegisterStep::Refuse(EMPTY_SHORTCUT.to_owned());
        }
        match &self.active {
            Some(previous) => {
                if previous.eq(&normalized) {
                    RegisterStep::Unchanged
                } else {
                    RegisterStep::Register {
                        release: Some(previous.clone()),
                        shortcut: normalized,
                    }
                }
            },
            None => RegisterStep::Register { release: None, shortcut: normalized },
        }
    }

    /// Records the framework's answer to registering `shortcut`: on success
    /// it becomes the registered one; on failure the state is kept and the
    /// framework's message is passed on.
    pub fn finish_register(&mut self, shortcut: String, answer: Result<(), String>) -> (r: Result<
        (),
        String,
    >)
        ensures
            answer is Ok ==> r is Ok && final(self).active == Some(shortcut),
            answer matches Err(e) ==> r matches Err(m) && m@ == REGISTER_FAILED@ + e@,
            answer is Err ==> final(self).active == old(self).active,
    {
        match answer {
            Ok(()) => {
                self.active = Some(shortcut);
                Ok(())
            },
            Err(e) => Err(prefixed(REGISTER_FAILED, e.as_str())),
        }
    }

    /// The shortcut a request to release asks the framework to release:
    /// the registered one, or none when nothing is registered.
    pub fn plan_unregister(&self) -> (r: Option<String>)
        ensures
            active_view(r) == active_view(self.active),
    {
        match &self.active {
            Some(existing) => Some(existing.clone()),
            None => None,
        }
    }

    /// Records the framework's answer to releasing the registered shortcut:
    /// on success nothing stays registered; on failure the state is kept and
    /// the framework's message is passed on.
    pub fn finish_unregister(&mut self, answer: Result<(), String>) -> (r: Result<(), String>)
        ensures
            answer is Ok ==> r is Ok && final(self).active is None,
            answer matches Err(e) ==> r matches Err(m) && m@ == UNREGISTER_FAILED@ + e@,
            answer is Err ==> final(self).active == old(self).active,
    {
        match answer {
            Ok(()) => {
                self.active = None;
                Ok(())
            },
            Err(e) => Err(prefixed(UNREGISTER_FAILED, e.as_str())),
        }
    }
}

} // verus!
