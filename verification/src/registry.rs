use vstd::prelude::*;
use crate::errors::RequestError;

verus! {

/// The two roles a synthesized callback receiver can play.
#[derive(Clone, Copy, Debug, PartialEq, Eq, Structural)]
pub enum DelegateRole {
    /// Receives browser events: device added, device removed.
    Browser,
    /// Receives per-device session events: opened, closed, removed,
    /// content catalog ready.
    DeviceSession,
}

/// The process-wide registry of synthesized delegate classes and of the
/// singleton browser-delegate registration.
///
/// The registry owns the namespace of synthesized native class names, so
/// no two classes collide: the class for a role is defined at most once
/// per process and reused afterwards. The browser delegate itself is
/// bound one-to-one to the browser: while one registration is alive, a
/// second attempt is a caller error, reported rather than merged.
#[derive(Clone, Copy, Debug, PartialEq, Eq, Structural)]
pub struct DelegateRegistry {
    /// Whether the native class for the browser role has been defined.
    pub browser_class_defined: bool,
    /// Whether the native class for the device-session role has been
    /// defined.
    pub device_class_defined: bool,
    /// Whether a browser-delegate registration is currently alive.
    pub browser_registered: bool,
}

impl DelegateRegistry {
    /// Whether the native class for `role` has been defined.
    pub open spec fn class_defined(self, role: DelegateRole) -> bool {
        match role {
            DelegateRole::Browser => self.browser_class_defined,
            DelegateRole::DeviceSession => self.device_class_defined,
        }
    }

    /// A fresh registry: nothing defined, nothing registered.
    pub fn new() -> (r: Self)
        ensures
            !r.browser_class_defined,
            !r.device_class_defined,
            !r.browser_registered,
    {
        DelegateRegistry {
            browser_class_defined: false,
            device_class_defined: false,
            browser_registered: false,
        }
    }

    /// Make sure the native class for `role` exists. Defining is
    /// idempotent: the first call creates the class, later calls reuse it,
    /// and the other role's class and any live registration are untouched.
    /// Returns whether the class had to be created now.
    pub fn define_class(&mut self, role: DelegateRole) -> (created: bool)
        ensures
            final(self).class_defined(role),
            created == !old(self).class_defined(role),
            forall|other: DelegateRole|
                other != role ==> final(self).class_defined(other) == old(self).class_defined(
                    other,
                ),
            final(self).browser_registered == old(self).browser_registered,
    {
        match role {
            DelegateRole::Browser => {
                let created = !self.browser_class_defined;
                self.browser_class_defined = true;
                created
            },
            DelegateRole::DeviceSession => {
                let created = !self.device_class_defined;
                self.device_class_defined = true;
                created
            },
        }
    }

    /// Register the singleton browser delegate. While a registration is
    /// alive, a second attempt is rejected with a registration conflict
    /// and changes nothing; otherwise the browser class is defined if
    /// needed and the registration becomes alive.
    pub fn register_browser(&mut self) -> (r: Result<(), RequestError>)
        ensures
            old(self).browser_registered ==> r == Err::<(), RequestError>(
                RequestError::RegistrationConflict,
            ) && *final(self) == *old(self),
            !old(self).browser_registered ==> {
                &&& r is Ok
                &&& final(self).browser_registered
                &&& final(self).browser_class_defined
                &&& final(self).device_class_defined == old(self).device_class_defined
            },
    {
        if self.browser_registered {
            Err(RequestError::RegistrationConflict)
        } else {
            self.browser_class_defined = true;
            self.browser_registered = true;
            Ok(())
        }
    }

    /// Release the browser-delegate registration. Returns whether one was
    /// alive; releasing an already-released registration is a no-op.
    pub fn release_browser(&mut self) -> (was_alive: bool)
        ensures
            was_alive == old(self).browser_registered,
            !final(self).browser_registered,
            final(self).browser_class_defined == old(self).browser_class_defined,
            final(self).device_class_defined == old(self).device_class_defined,
    {
        let was_alive = self.browser_registered;
        self.browser_registered = false;
        was_alive
    }
}

} // verus!
