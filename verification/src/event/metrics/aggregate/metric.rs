//! The units in which a metric is measured.
use super::info::Str;
use vstd::prelude::*;

verus! {

/// The units in which a metric is measured.
#[derive(Clone, Copy, Debug, PartialEq, Eq, PartialOrd, Ord, Hash)]
#[non_exhaustive]
pub enum Units {
    Unitless,
    Bytes,
    Duration,
}

/// The name of units `u`, as a C string: nothing for plain counts.
pub open spec fn spec_units_name(u: Units) -> Seq<u8> {
    match u {
        Units::Unitless => seq![0u8],
        Units::Bytes => seq![0x62u8, 0x79, 0x74, 0x65, 0x73, 0],
        Units::Duration => seq![0x64u8, 0x75, 0x72, 0x61, 0x74, 0x69, 0x6f, 0x6e, 0],
    }
}

impl Units {
    pub fn as_str(&self) -> (r: Str)
        ensures
            r.spec_raw() == spec_units_name(*self),
    {
        match self {
            Units::Unitless => {
                proof {
                    reveal_strlit("\0");
                    vstd::string::is_ascii_spec_bytes("\0");
                }
                Str::new("\0")
            },
            Units::Bytes => {
                proof {
                    reveal_strlit("bytes\0");
                    vstd::string::is_ascii_spec_bytes("bytes\0");
                }
                Str::new("bytes\0")
            },
            Units::Duration => {
                proof {
                    reveal_strlit("duration\0");
                    vstd::string::is_ascii_spec_bytes("duration\0");
                }
                Str::new("duration\0")
            },
        }
    }
}

} // verus!
