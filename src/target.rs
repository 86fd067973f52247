use vstd::prelude::*;

verus! {

/// The execution environment, and with it the memory model, that compiled
/// modules are meant for.
#[derive(Clone, Copy, Debug, PartialEq, Eq, Structural)]
pub enum ExecutionEnv {
    /// Plain SPIR-V with no client API attached.
    Universal,
    /// Vulkan, with the Vulkan memory model.
    Vulkan,
}

/// What every unit of a batch is compiled for: a SPIR-V version and an
/// execution environment.
#[derive(Clone, Copy, Debug, PartialEq, Eq, Structural)]
pub struct CompileTarget {
    pub spirv_major: u8,
    pub spirv_minor: u8,
    pub env: ExecutionEnv,
}

pub const BATCH_SPIRV_MAJOR: u8 = 1;

pub const BATCH_SPIRV_MINOR: u8 = 3;

/// The fixed target of a batch run: SPIR-V 1.3 for Vulkan.
pub fn batch_target() -> (r: CompileTarget)
    ensures
        r.spirv_major == 1,
        r.spirv_minor == 3,
        r.env == ExecutionEnv::Vulkan,
{
    CompileTarget {
        spirv_major: BATCH_SPIRV_MAJOR,
        spirv_minor: BATCH_SPIRV_MINOR,
        env: ExecutionEnv::Vulkan,
    }
}

/// Name of the target environment that selects `t`, if the toolchain has one.
/// A Vulkan environment fixes the SPIR-V version: Vulkan 1.0 reads SPIR-V 1.0,
/// 1.1 reads 1.3 (and 1.4 by extension), 1.2 reads 1.5, 1.3 reads 1.6.
pub open spec fn env_name(t: CompileTarget) -> Option<Seq<char>> {
    if t.spirv_major != 1 {
        None
    } else {
        match t.env {
            ExecutionEnv::Universal => {
                if t.spirv_minor <= 6 {
                    Some("spv1."@.push(minor_digit(t.spirv_minor)))
                } else {
                    None
                }
            },
            ExecutionEnv::Vulkan => {
                if t.spirv_minor == 0 {
                    Some("vulkan1.0"@)
                } else if t.spirv_minor == 3 {
                    Some("vulkan1.1"@)
                } else if t.spirv_minor == 4 {
                    Some("vulkan1.1spv1.4"@)
                } else if t.spirv_minor == 5 {
                    Some("vulkan1.2"@)
                } else if t.spirv_minor == 6 {
                    Some("vulkan1.3"@)
                } else {
                    None
                }
            },
        }
    }
}

/// The decimal digit of a minor version below ten.
pub open spec fn minor_digit(m: u8) -> char {
    (('0' as u8) + m) as char
}

/// The prefix that turns a target environment into a full target triple.
pub open spec fn triple_prefix() -> Seq<char> {
    "spirv-unknown-"@
}

/// The full target triple that selects `t`, if the toolchain has one.
pub open spec fn triple_of(t: CompileTarget) -> Option<Seq<char>> {
    match env_name(t) {
        Some(env) => Some(triple_prefix() + env),
        None => None,
    }
}

/// The target environment that selects `t`, or `None` where the toolchain
/// has no environment for that pair of version and environment.
pub fn target_env(t: CompileTarget) -> (r: Option<String>)
    ensures
        r is Some <==> env_name(t) is Some,
        r matches Some(s) ==> s@ == env_name(t)->0,
{
    if t.spirv_major != 1 {
        return None;
    }
    let name: &str = match t.env {
        ExecutionEnv::Universal => {
            if t.spirv_minor == 0 {
                proof { reveal_strlit("spv1.0"); reveal_strlit("spv1."); }
                "spv1.0"
            } else if t.spirv_minor == 1 {
                proof { reveal_strlit("spv1.1"); reveal_strlit("spv1."); }
                "spv1.1"
            } else if t.spirv_minor == 2 {
                proof { reveal_strlit("spv1.2"); reveal_strlit("spv1."); }
                "spv1.2"
            } else if t.spirv_minor == 3 {
                proof { reveal_strlit("spv1.3"); reveal_strlit("spv1."); }
                "spv1.3"
            } else if t.spirv_minor == 4 {
                proof { reveal_strlit("spv1.4"); reveal_strlit("spv1."); }
                "spv1.4"
            } else if t.spirv_minor == 5 {
                proof { reveal_strlit("spv1.5"); reveal_strlit("spv1."); }
                "spv1.5"
            } else if t.spirv_minor == 6 {
                proof { reveal_strlit("spv1.6"); reveal_strlit("spv1."); }
                "spv1.6"
            } else {
                return None;
            }
        },
        ExecutionEnv::Vulkan => {
            if t.spirv_minor == 0 {
                "vulkan1.0"
            } else if t.spirv_minor == 3 {
                "vulkan1.1"
            } else if t.spirv_minor == 4 {
                "vulkan1.1spv1.4"
            } else if t.spirv_minor == 5 {
                "vulkan1.2"
            } else if t.spirv_minor == 6 {
                "vulkan1.3"
            } else {
                return None;
            }
        },
    };
    Some(name.to_owned())
}

/// The full target triple that selects `t`, as the toolchain spells it, or
/// `None` where it has no target for `t`.
pub fn target_triple(t: CompileTarget) -> (r: Option<String>)
    ensures
        r is Some <==> triple_of(t) is Some,
        r matches Some(s) ==> s@ == triple_of(t)->0,
{
    match target_env(t) {
        None => None,
        Some(env) => match full_target(env.as_str()) {
            Ok(triple) => Some(triple),
            Err(_) => None,
        },
    }
}

#[verifier::external_type_specification]
#[verifier::external_body]
pub struct ExTargetError(spirv_builder::TargetError);

/// Relies on spirv_builder::SpirvTarget::parse_env, which always succeeds and
/// puts `spirv-unknown-` in front of the environment, and on
/// SpirvTarget::target, which hands that string back.
#[verifier::external_body]
fn full_target(env: &str) -> (r: Result<String, spirv_builder::TargetError>)
    ensures
        r is Ok,
        r->Ok_0@ == triple_prefix() + env@,
{
    match spirv_builder::SpirvTarget::parse_env(env) {
        Ok(target) => Ok(target.target().to_string()),
        Err(e) => Err(e),
    }
}

} // verus!
