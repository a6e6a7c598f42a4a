use vstd::prelude::*;

verus! {

/// A capability tag a device may advertise.
///
/// The vocabulary is closed: it is defined by the native framework and is
/// read-only for this crate.
#[derive(Clone, Copy, Debug, PartialEq, Eq, Structural)]
pub enum Capability {
    /// The camera can capture a picture on request while connected.
    TakePicture,
    /// The camera can delete one file at a time.
    DeleteOneFile,
    /// The camera can delete all files in a single operation.
    DeleteAllFiles,
    /// The camera can synchronize its clock with the host's clock.
    SyncClock,
    /// The host can upload files to the camera.
    ReceiveFile,
    /// The camera accepts PTP commands.
    AcceptPtpCommands,
}

/// The set of capability tags one device advertises.
#[derive(Clone, Copy, Debug, PartialEq, Eq, Structural)]
pub struct CapabilitySet {
    pub take_picture: bool,
    pub delete_one_file: bool,
    pub delete_all_files: bool,
    pub sync_clock: bool,
    pub receive_file: bool,
    pub accept_ptp_commands: bool,
}

impl CapabilitySet {
    /// Whether the tag `c` is in the set.
    pub open spec fn spec_has(self, c: Capability) -> bool {
        match c {
            Capability::TakePicture => self.take_picture,
            Capability::DeleteOneFile => self.delete_one_file,
            Capability::DeleteAllFiles => self.delete_all_files,
            Capability::SyncClock => self.sync_clock,
            Capability::ReceiveFile => self.receive_file,
            Capability::AcceptPtpCommands => self.accept_ptp_commands,
        }
    }

    /// The set as a mathematical set of tags.
    pub open spec fn as_set(self) -> Set<Capability> {
        Set::new(|c: Capability| self.spec_has(c))
    }

    /// The set with no tags.
    pub fn empty() -> (r: Self)
        ensures
            forall|c: Capability| !r.spec_has(c),
    {
        CapabilitySet {
            take_picture: false,
            delete_one_file: false,
            delete_all_files: false,
            sync_clock: false,
            receive_file: false,
            accept_ptp_commands: false,
        }
    }

    /// Whether the tag `c` is in the set.
    pub fn has(&self, c: Capability) -> (r: bool)
        ensures
            r == self.spec_has(c),
    {
        match c {
            Capability::TakePicture => self.take_picture,
            Capability::DeleteOneFile => self.delete_one_file,
            Capability::DeleteAllFiles => self.delete_all_files,
            Capability::SyncClock => self.sync_clock,
            Capability::ReceiveFile => self.receive_file,
            Capability::AcceptPtpCommands => self.accept_ptp_commands,
        }
    }

    /// The same set with the tag `c` added.
    pub fn with(&self, c: Capability) -> (r: Self)
        ensures
            r.spec_has(c),
            forall|d: Capability| d != c ==> r.spec_has(d) == self.spec_has(d),
    {
        let mut r = *self;
        match c {
            Capability::TakePicture => {
                r.take_picture = true;
            },
            Capability::DeleteOneFile => {
                r.delete_one_file = true;
            },
            Capability::DeleteAllFiles => {
                r.delete_all_files = true;
            },
            Capability::SyncClock => {
                r.sync_clock = true;
            },
            Capability::ReceiveFile => {
                r.receive_file = true;
            },
            Capability::AcceptPtpCommands => {
                r.accept_ptp_commands = true;
            },
        }
        r
    }
}

} // verus!
