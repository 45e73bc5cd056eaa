//! The fixed table of microfluidic devices.
//!
//! Each device is a channel variant named by its maximum valid input
//! dimension in micrometers, and maps to the three regression models that
//! the prediction pipeline chains for it.

use crate::numeric;
use crate::pipeline::StageKind;
use vstd::prelude::*;
use vstd::string::StringExecFns;

verus! {

/// The three channel variants, by maximum diameter in micrometers.
#[derive(Clone, Copy, Debug, PartialEq, Eq, Structural)]
pub enum Device {
    CH100,
    CH190,
    CH270,
}

impl Device {
    /// The devices in the order the selection list offers them.
    pub fn all() -> (r: Vec<Device>)
        ensures
            r@ =~= seq![Device::CH100, Device::CH190, Device::CH270],
    {
        let mut list: Vec<Device> = Vec::new();
        list.push(Device::CH100);
        list.push(Device::CH190);
        list.push(Device::CH270);
        list
    }

    pub open spec fn spec_max_value(self) -> u32 {
        match self {
            Device::CH100 => 100,
            Device::CH190 => 190,
            Device::CH270 => 270,
        }
    }

    /// Largest valid input dimension for this device, in micrometers.
    pub fn max_value(&self) -> (r: u32)
        ensures
            r == self.spec_max_value(),
    {
        match self {
            Device::CH100 => 100,
            Device::CH190 => 190,
            Device::CH270 => 270,
        }
    }

    pub open spec fn spec_max_value_bits(self) -> u32 {
        match self {
            Device::CH100 => 0x42C8_0000,
            Device::CH190 => 0x433E_0000,
            Device::CH270 => 0x4387_0000,
        }
    }

    /// The device's maximum as a scalar bit pattern (the single-precision
    /// encoding of 100.0, 190.0 and 270.0), for comparing against entered
    /// values.
    pub fn max_value_bits(&self) -> (r: u32)
        ensures
            r == self.spec_max_value_bits(),
    {
        match self {
            Device::CH100 => 0x42C8_0000,
            Device::CH190 => 0x433E_0000,
            Device::CH270 => 0x4387_0000,
        }
    }

    pub open spec fn spec_label(self) -> Seq<char> {
        match self {
            Device::CH100 => "100"@,
            Device::CH190 => "190"@,
            Device::CH270 => "270"@,
        }
    }

    /// Display label of the device.
    pub fn label(&self) -> (r: &'static str)
        ensures
            r@ == self.spec_label(),
    {
        match self {
            Device::CH100 => "100",
            Device::CH190 => "190",
            Device::CH270 => "270",
        }
    }

    pub open spec fn spec_model_path(self, stage: StageKind) -> Seq<char> {
        "assets/models/"@ + self.spec_label() + "/"@ + spec_stage_dir(stage)
    }

    /// The fixed mapping from this device and one pipeline stage to the
    /// path of the model artifact to load for it.
    pub fn model_path(&self, stage: StageKind) -> (r: String)
        ensures
            r@ == self.spec_model_path(stage),
    {
        let r = String::from_str("assets/models/").concat(self.label()).concat("/").concat(
            stage_dir(stage),
        );
        proof {
            assert(r@ =~= self.spec_model_path(stage));
        }
        r
    }

    /// An entered value is valid for this device when, as a scalar, it is
    /// at most the device's maximum: equal to the maximum is still valid.
    pub open spec fn spec_accepts_dimension(self, bits: u32) -> bool {
        numeric::scalar_le(bits, self.spec_max_value_bits())
    }

    /// Whether the entered dimension (as a scalar bit pattern) is within
    /// this device's maximum. Render-time check only: the pipeline itself
    /// never rejects an input.
    pub fn accepts_dimension(&self, bits: u32) -> (r: bool)
        ensures
            r == self.spec_accepts_dimension(bits),
    {
        numeric::scalar_bits_le(bits, self.max_value_bits())
    }
}

pub open spec fn spec_stage_dir(stage: StageKind) -> Seq<char> {
    match stage {
        StageKind::SecondaryDimension => "sec_dim"@,
        StageKind::FlowRate => "flow"@,
        StageKind::Frequency => "freq"@,
    }
}

/// Directory name under which each stage's model artifact lives.
pub fn stage_dir(stage: StageKind) -> (r: &'static str)
    ensures
        r@ == spec_stage_dir(stage),
{
    match stage {
        StageKind::SecondaryDimension => "sec_dim",
        StageKind::FlowRate => "flow",
        StageKind::Frequency => "freq",
    }
}

/// The device's maximum, entered exactly, is valid for it; and the scalar
/// one micrometer above the maximum (101.0, 191.0, 271.0) is not.
pub proof fn lemma_boundary_dimension(d: Device)
    ensures
        d.spec_accepts_dimension(d.spec_max_value_bits()),
        d == Device::CH100 ==> !d.spec_accepts_dimension(0x42CA_0000),
        d == Device::CH190 ==> !d.spec_accepts_dimension(0x433F_0000),
        d == Device::CH270 ==> !d.spec_accepts_dimension(0x4387_8000),
{
    let m = d.spec_max_value_bits();
    numeric::lemma_magnitude_split(m);
    match d {
        Device::CH100 => {
            numeric::lemma_magnitude_split(0x42CA_0000);
        },
        Device::CH190 => {
            numeric::lemma_magnitude_split(0x433F_0000);
        },
        Device::CH270 => {
            numeric::lemma_magnitude_split(0x4387_8000);
        },
    }
}

} // verus!
