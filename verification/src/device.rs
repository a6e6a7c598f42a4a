use vstd::prelude::*;
use crate::capability::Capability;
use crate::capability::CapabilitySet;
use crate::text::all_scalar_values;

verus! {

/// What kind of device the framework enumerated.
#[derive(Clone, Copy, Debug, PartialEq, Eq, Structural)]
pub enum DeviceKind {
    Camera,
    Scanner,
    Other,
}

/// How the device is attached to the host.
#[derive(Clone, Copy, Debug, PartialEq, Eq, Structural)]
pub enum TransportType {
    Usb,
    FireWire,
    Bluetooth,
    Network,
    MassStorage,
    Other,
}

/// The queried description of one device, decoded into plain values at the
/// moment the native layer reported it. Nothing here is cached across a
/// removal: the record belongs to one discovery-to-removal lifetime.
///
/// Text fields are sequences of Unicode scalar values, the form in which
/// the string bridge delivers them.
#[derive(Clone, Debug)]
pub struct DeviceDesc {
    pub kind: DeviceKind,
    pub name: Vec<u32>,
    pub transport: TransportType,
    pub location_description: Vec<u32>,
    pub is_remote: bool,
    pub capabilities: CapabilitySet,
}

impl DeviceDesc {
    /// Well-formedness: all text fields hold Unicode scalar values.
    pub open spec fn wf(self) -> bool {
        all_scalar_values(self.name@) && all_scalar_values(self.location_description@)
    }
}

/// Camera-specific attributes, queried rather than cached.
#[derive(Clone, Debug)]
pub struct CameraProperties {
    /// Whether the device reports a battery charge level at all.
    pub battery_level_available: bool,
    /// Battery charge level; meaningful only if `battery_level_available`.
    pub battery_level: u8,
    /// How much of the content catalog has been built so far.
    pub content_catalog_percent: u8,
    /// Seconds the camera's clock is ahead of the host's clock; meaningful
    /// only for a device with the clock-sync capability.
    pub time_offset_seconds: i64,
    /// Whether tethered capture is currently enabled.
    pub tethered_capture_enabled: bool,
    /// Whether the device is an access-restricted, pass-code locked device
    /// on an untrusted host.
    pub access_restricted: bool,
    /// Filesystem mount point; present exactly for mass-storage transport.
    pub mount_point: Option<Vec<u32>>,
}

impl CameraProperties {
    /// Well-formedness relative to the transport the device reported:
    /// levels are percentages, and a mount point exists exactly for a
    /// mass-storage device.
    pub open spec fn wf(self, transport: TransportType) -> bool {
        &&& self.battery_level <= 100
        &&& self.content_catalog_percent <= 100
        &&& self.mount_point is Some <==> transport is MassStorage
        &&& match self.mount_point {
            Some(p) => all_scalar_values(p@),
            None => true,
        }
    }

    /// The battery charge level, a percentage.
    pub fn battery_level(&self, transport: TransportType) -> (r: u8)
        requires
            self.wf(transport),
            self.battery_level_available,
        ensures
            r == self.battery_level,
            r <= 100,
    {
        self.battery_level
    }

    /// How much of the content catalog has been built, a percentage.
    pub fn content_catalog_percent_completed(&self, transport: TransportType) -> (r: u8)
        requires
            self.wf(transport),
        ensures
            r == self.content_catalog_percent,
            r <= 100,
    {
        self.content_catalog_percent
    }

    /// The camera's clock offset in seconds, for a device that can sync
    /// its clock.
    pub fn time_offset(&self, capabilities: &CapabilitySet) -> (r: i64)
        requires
            capabilities.spec_has(Capability::SyncClock),
        ensures
            r == self.time_offset_seconds,
    {
        self.time_offset_seconds
    }

    /// The mount point of a mass-storage device, and `None` for every
    /// other transport.
    pub fn mount_point(&self, transport: TransportType) -> (r: &Option<Vec<u32>>)
        requires
            self.wf(transport),
        ensures
            r == self.mount_point,
            (r is Some) == (transport is MassStorage),
    {
        &self.mount_point
    }
}

/// The broad sort of a media file on a camera.
#[derive(Clone, Copy, Debug, PartialEq, Eq, Structural)]
pub enum MediaKind {
    Image,
    Movie,
    Audio,
}

/// One file on a device: an opaque native item named by a correlation
/// identifier, plus what the catalog says about its sort.
#[derive(Clone, Copy, Debug, PartialEq, Eq, Structural)]
pub struct FileItem {
    pub id: u64,
    pub kind: MediaKind,
}

/// The files of the catalog `files` whose sort is `kind`, in catalog
/// order.
pub fn files_of_type(files: &Vec<FileItem>, kind: MediaKind) -> (r: Vec<FileItem>)
    ensures
        r@ == files@.filter(|f: FileItem| f.kind == kind),
{
    let mut out: Vec<FileItem> = Vec::new();
    let mut i: usize = 0;
    while i < files.len()
        invariant
            i <= files@.len(),
            out@ == files@.take(i as int).filter(|f: FileItem| f.kind == kind),
        decreases files@.len() - i,
    {
        let f = files[i];
        if f.kind == kind {
            out.push(f);
        }
        proof {
            reveal(Seq::filter);
            assert(files@.take(i as int + 1).drop_last() =~= files@.take(i as int));
            assert(files@.take(i as int + 1).last() == f);
        }
        i = i + 1;
    }
    proof {
        assert(files@.take(files@.len() as int) =~= files@);
    }
    out
}

} // verus!
