//! Scene flags spelled the way the renderers' storage buffers expect them.

use vstd::prelude::*;

verus! {

/// A boolean with a four-byte representation in the scene's storage-buffer
/// layout. Scene structs use it over one-byte `bool` to keep that layout
/// explicit.
#[derive(Clone, Copy, Debug, PartialEq, Eq, Hash, Structural)]
pub enum ShaderBool {
    /// The flag is disabled.
    Disabled,
    /// The flag is enabled.
    Enabled,
}

impl Default for ShaderBool {
    /// A flag is disabled unless set.
    fn default() -> (r: Self)
        ensures
            r == ShaderBool::Disabled,
    {
        ShaderBool::Disabled
    }
}

impl ShaderBool {
    /// Returns this flag as a regular Rust boolean.
    pub fn is_enabled(self) -> (r: bool)
        ensures
            r == (self == ShaderBool::Enabled),
    {
        self == ShaderBool::Enabled
    }
}

/// The flag that stands for a boolean.
pub open spec fn shader_bool_of(value: bool) -> ShaderBool {
    if value {
        ShaderBool::Enabled
    } else {
        ShaderBool::Disabled
    }
}

impl From<bool> for ShaderBool {
    fn from(value: bool) -> (r: Self) {
        if value {
            Self::Enabled
        } else {
            Self::Disabled
        }
    }
}

impl vstd::std_specs::convert::FromSpecImpl<bool> for ShaderBool {
    open spec fn obeys_from_spec() -> bool {
        true
    }

    open spec fn from_spec(v: bool) -> Self {
        shader_bool_of(v)
    }
}

/// A boolean turned into a flag reads back as the same boolean, and every
/// flag is the flag of what it reads as.
pub proof fn law_shader_bool_round_trip(value: bool, flag: ShaderBool)
    ensures
        (shader_bool_of(value) == ShaderBool::Enabled) == value,
        shader_bool_of(flag == ShaderBool::Enabled) == flag,
{
}

} // verus!
