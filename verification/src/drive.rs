//! Block devices that a sandbox runs with besides its root file system.

use crate::text::optional_view;
use vstd::prelude::*;
use vstd::string::*;

verus! {

/// A drive to attach to a sandbox.
#[derive(Clone, Debug, PartialEq, Eq)]
pub enum ExtraDrive {
    /// A drive whose image is a stack of overlaybd layers.
    Overlaybd {
        drive_id: String,
        image_config_path: String,
        read_only: bool,
        /// The size of the device in bytes, where it is known.
        virtual_size: Option<u64>,
        mount_path: String,
        sub_path: Option<String>,
    },
}

/// What an [`ExtraDrive`] holds.
#[verifier::ext_equal]
pub struct ExtraDriveView {
    pub drive_id: Seq<char>,
    pub image_config_path: Seq<char>,
    pub read_only: bool,
    pub virtual_size: Option<u64>,
    pub mount_path: Seq<char>,
    pub sub_path: Option<Seq<char>>,
}

impl View for ExtraDrive {
    type V = ExtraDriveView;

    open spec fn view(&self) -> ExtraDriveView {
        match *self {
            ExtraDrive::Overlaybd {
                drive_id,
                image_config_path,
                read_only,
                virtual_size,
                mount_path,
                sub_path,
            } => ExtraDriveView {
                drive_id: drive_id@,
                image_config_path: image_config_path@,
                read_only,
                virtual_size,
                mount_path: mount_path@,
                sub_path: optional_view(sub_path),
            },
        }
    }
}

/// The views of some drives.
pub open spec fn drive_views(drives: Seq<ExtraDrive>) -> Seq<ExtraDriveView> {
    drives.map_values(|d: ExtraDrive| d@)
}

impl ExtraDrive {
    pub fn drive_id(&self) -> (r: &String)
        ensures
            r@ == self@.drive_id,
            *r == self->drive_id,
    {
        match self {
            ExtraDrive::Overlaybd { drive_id, .. } => drive_id,
        }
    }

    pub fn image_config_path(&self) -> (r: &String)
        ensures
            r@ == self@.image_config_path,
            *r == self->image_config_path,
    {
        match self {
            ExtraDrive::Overlaybd { image_config_path, .. } => image_config_path,
        }
    }

    pub fn read_only(&self) -> (r: bool)
        ensures
            r == self@.read_only,
            r == self->read_only,
    {
        match self {
            ExtraDrive::Overlaybd { read_only, .. } => *read_only,
        }
    }

    pub fn virtual_size(&self) -> (r: Option<u64>)
        ensures
            r == self@.virtual_size,
            r == self->virtual_size,
    {
        match self {
            ExtraDrive::Overlaybd { virtual_size, .. } => *virtual_size,
        }
    }

    pub fn mount_path(&self) -> (r: &String)
        ensures
            r@ == self@.mount_path,
            *r == self->mount_path,
    {
        match self {
            ExtraDrive::Overlaybd { mount_path, .. } => mount_path,
        }
    }

    pub fn sub_path(&self) -> (r: &Option<String>)
        ensures
            optional_view(*r) == self@.sub_path,
            *r == self->sub_path,
    {
        match self {
            ExtraDrive::Overlaybd { sub_path, .. } => sub_path,
        }
    }
}

} // verus!
