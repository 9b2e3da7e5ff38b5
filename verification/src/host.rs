//! The kind of host this program was built for.
use crate::outside::main_separator;
use vstd::prelude::*;

verus! {

/// Whether this program was built for a host whose paths are separated by
/// backslashes, that is for Windows.
pub fn host_uses_windows_conventions() -> bool {
    main_separator() == '\\'
}

} // verus!
