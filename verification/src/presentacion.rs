//! Text shown by the co-simulation trace and the names of the dynamic
//! libraries that hold each FMU.

use vstd::prelude::*;
use vstd::string::StringExecFns;

verus! {

/// Operating systems that name dynamic libraries differently.
#[derive(PartialEq, Eq, Structural, Clone, Copy, Debug)]
pub enum SistemaOperativo {
    Windows,
    MacOs,
    /// Any other Unix-like system (`lib<name>.so`).
    OtroUnix,
}

/// The file name prefix that `so` gives a dynamic library.
pub open spec fn prefijo_dll(so: SistemaOperativo) -> Seq<char> {
    match so {
        SistemaOperativo::Windows => Seq::empty(),
        SistemaOperativo::MacOs => "lib"@,
        SistemaOperativo::OtroUnix => "lib"@,
    }
}

/// The file name extension that `so` gives a dynamic library.
pub open spec fn sufijo_dll(so: SistemaOperativo) -> Seq<char> {
    match so {
        SistemaOperativo::Windows => ".dll"@,
        SistemaOperativo::MacOs => ".dylib"@,
        SistemaOperativo::OtroUnix => ".so"@,
    }
}

/// File name of the dynamic library that the crate `crate_name` builds on `so`.
pub fn nombre_dll(crate_name: &str, so: SistemaOperativo) -> (r: String)
    ensures
        r@ == prefijo_dll(so) + crate_name@ + sufijo_dll(so),
        so == SistemaOperativo::Windows ==> r@ == crate_name@ + ".dll"@,
        so == SistemaOperativo::MacOs ==> r@ == "lib"@ + crate_name@ + ".dylib"@,
        so == SistemaOperativo::OtroUnix ==> r@ == "lib"@ + crate_name@ + ".so"@,
{
    match so {
        SistemaOperativo::Windows => {
            let r = String::from_str(crate_name).concat(".dll");
            assert(prefijo_dll(so) + crate_name@ =~= crate_name@);
            r
        },
        SistemaOperativo::MacOs => String::from_str("lib").concat(crate_name).concat(".dylib"),
        SistemaOperativo::OtroUnix => String::from_str("lib").concat(crate_name).concat(".so"),
    }
}

/// Label of the light in the trace: red wins over green; with neither, a
/// placeholder of the same width.
pub open spec fn spec_fase(rojo: bool, verde: bool) -> Seq<char> {
    if rojo {
        "🔴 ROJO "@
    } else if verde {
        "🟢 VERDE"@
    } else {
        "  ?     "@
    }
}

/// Label of the light in the trace, from whether the red and the green
/// outputs are on.
pub fn fase(rojo: bool, verde: bool) -> (r: &'static str)
    ensures
        r@ == spec_fase(rojo, verde),
        rojo ==> r@ == "🔴 ROJO "@,
        !rojo && verde ==> r@ == "🟢 VERDE"@,
        !rojo && !verde ==> r@ == "  ?     "@,
{
    if rojo {
        "🔴 ROJO "
    } else if verde {
        "🟢 VERDE"
    } else {
        "  ?     "
    }
}

} // verus!
