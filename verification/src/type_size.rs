//! How much room the engine's records take, for hosts that reserve their
//! storage as plain bytes. The sizes hold where a pointer takes eight bytes.

use vstd::prelude::*;

verus! {

/// Size in bytes of the engine's event record.
#[allow(non_upper_case_globals)]
pub const yaml_event_t_size: usize = 96;

/// Size in bytes of the engine's parser record.
#[allow(non_upper_case_globals)]
pub const yaml_parser_t_size: usize = 480;

} // verus!
