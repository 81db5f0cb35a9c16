//! The window class: registered with the platform once, on first use, shared
//! by every window, and given back once at the end.

use crate::win32::{CS_HREDRAW, CS_VREDRAW};
use vstd::prelude::*;

verus! {

/// The platform did not register the window class, or the class has been
/// given back. No window can be created.
#[derive(Debug, Copy, Clone, PartialEq, Eq, Structural)]
pub struct RegistrationError;

/// The window class, as registered.
#[derive(Debug, Copy, Clone, PartialEq, Eq, Structural)]
pub struct WindowClass {
    pub atom: u16,
}

impl WindowClass {
    /// Reads the answer of the platform to the registration of the class:
    /// the atom of the class, or zero where it refused.
    pub fn register(atom: u16) -> (class: Result<WindowClass, RegistrationError>)
        ensures
            class == spec_register(atom),
    {
        if atom == 0 {
            return Err(RegistrationError);
        }
        Ok(WindowClass { atom })
    }

    /// The name that the class is registered under.
    pub fn name(&self) -> (name: &'static str)
        ensures
            name@ == "winman"@,
    {
        "winman"
    }

    /// The class style: a window of the class is redrawn whole whenever its
    /// width or its height changes.
    pub fn style(&self) -> (style: u32)
        ensures
            style == 3,
            style & CS_HREDRAW == CS_HREDRAW,
            style & CS_VREDRAW == CS_VREDRAW,
    {
        assert((0x0002u32 | 0x0001u32) == 3u32 && 3u32 & 0x0002u32 == 0x0002u32 && 3u32
            & 0x0001u32 == 0x0001u32) by (bit_vector);
        CS_HREDRAW | CS_VREDRAW
    }
}

/// What the answer of the platform to a registration means.
pub open spec fn spec_register(atom: u16) -> Result<WindowClass, RegistrationError> {
    if atom == 0 {
        Err(RegistrationError)
    } else {
        Ok(WindowClass { atom })
    }
}

/// What is known of the window class of the process.
#[derive(Debug, Copy, Clone, PartialEq, Eq, Structural)]
pub enum ClassState {
    /// The platform has not been asked yet.
    Unattempted,
    /// The platform has registered the class.
    Registered(WindowClass),
    /// The platform has refused the class.
    Failed,
    /// The class has been given back.
    Unregistered,
}

/// What a registry answers to every request for the class, given what it
/// knows.
pub open spec fn spec_class(state: ClassState) -> Option<Result<WindowClass, RegistrationError>> {
    match state {
        ClassState::Unattempted => None,
        ClassState::Registered(class) => Some(Ok(class)),
        ClassState::Failed => Some(Err(RegistrationError)),
        ClassState::Unregistered => Some(Err(RegistrationError)),
    }
}

/// What a registry knows once it has been told the answer of the platform:
/// the first answer counts, every later one changes nothing.
pub open spec fn spec_record(state: ClassState, atom: u16) -> ClassState {
    match state {
        ClassState::Unattempted => match spec_register(atom) {
            Ok(class) => ClassState::Registered(class),
            Err(_) => ClassState::Failed,
        },
        _ => state,
    }
}

/// The one record of the window class of a process.
#[derive(Debug, Copy, Clone)]
pub struct ClassRegistry {
    state: ClassState,
}

impl View for ClassRegistry {
    type V = ClassState;

    closed spec fn view(&self) -> ClassState {
        self.state
    }
}

impl ClassRegistry {
    /// A registry that has not asked the platform for anything.
    pub fn new() -> (registry: ClassRegistry)
        ensures
            registry@ == ClassState::Unattempted,
    {
        ClassRegistry { state: ClassState::Unattempted }
    }

    /// The outcome of the registration, if the platform has been asked.
    /// While this is `None`, and only then, the caller asks the platform to
    /// register the class and hands the answer to `register`.
    pub fn class(&self) -> (class: Option<Result<WindowClass, RegistrationError>>)
        ensures
            class == spec_class(self@),
    {
        match self.state {
            ClassState::Unattempted => None,
            ClassState::Registered(class) => Some(Ok(class)),
            ClassState::Failed => Some(Err(RegistrationError)),
            ClassState::Unregistered => Some(Err(RegistrationError)),
        }
    }

    /// Records the answer of the platform to the registration and returns
    /// the outcome. Only the first answer is recorded: from then on the
    /// outcome is the same whatever is handed in.
    pub fn register(&mut self, atom: u16) -> (class: Result<WindowClass, RegistrationError>)
        ensures
            final(self)@ == spec_record(old(self)@, atom),
            Some(class) == spec_class(final(self)@),
    {
        match self.state {
            ClassState::Unattempted => {
                let class = WindowClass::register(atom);
                match class {
                    Ok(c) => {
                        self.state = ClassState::Registered(c);
                    },
                    Err(_) => {
                        self.state = ClassState::Failed;
                    },
                }
                class
            },
            ClassState::Registered(class) => Ok(class),
            ClassState::Failed => Err(RegistrationError),
            ClassState::Unregistered => Err(RegistrationError),
        }
    }

    /// Gives the class back at the end of the process. The class outlives
    /// its windows: while `windows_gone` is false nothing happens. Where the
    /// answer is `true`, the caller has the platform unregister the class;
    /// that is so once, and only if the class was registered.
    pub fn unregister(&mut self, windows_gone: bool) -> (due: bool)
        ensures
            due == (windows_gone && old(self)@ is Registered),
            final(self)@ == spec_unregister(old(self)@, windows_gone),
    {
        if !windows_gone {
            return false;
        }
        match self.state {
            ClassState::Unattempted => false,
            ClassState::Registered(_) => {
                self.state = ClassState::Unregistered;
                true
            },
            _ => {
                self.state = ClassState::Unregistered;
                false
            },
        }
    }
}

/// What a registry knows once the class has been given back: nothing changes
/// while windows are left or where the platform was never asked; otherwise
/// the class is gone for good.
pub open spec fn spec_unregister(state: ClassState, windows_gone: bool) -> ClassState {
    if !windows_gone || state is Unattempted {
        state
    } else {
        ClassState::Unregistered
    }
}

/// Registration happens once: whatever answers are handed in after the first,
/// the record stays what the first made it.
pub proof fn lemma_register_once(state: ClassState, first: u16, second: u16)
    ensures
        spec_record(spec_record(state, first), second) == spec_record(state, first),
        spec_class(spec_record(state, first)) is Some,
{
}

} // verus!
