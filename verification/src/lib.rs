//! Userspace-visible ABI of a microkernel: the shared-memory pages the kernel
//! populates for user code to read without a syscall, the status-code domain
//! shared across the syscall boundary, a reversible string-escaping codec for
//! flat key/value buffers, and an address-alignment utility.

mod align;
mod codec;
mod errors;
mod shared_mem;

pub use align::align_up;
pub use align::is_power_of_two;
pub use codec::url_encode;
pub use codec::url_decode;
pub use codec::encode_seq;
pub use codec::decode_seq;
pub use codec::esc_char;
pub use codec::amp_at;
pub use codec::col_at;
pub use codec::eq_at;
pub use codec::well_escaped;
pub use codec::lemma_encode_append;
pub use codec::lemma_codec_round_trip;
pub use codec::lemma_encode_well_escaped;
pub use errors::ErrorCode;
pub use errors::code_of;
pub use errors::decode_of;
pub use errors::lemma_code_injective;
pub use errors::lemma_code_round_trip;
pub use shared_mem::CUSTOM_USERSPACE_REGION_START;
pub use shared_mem::CUSTOM_USERSPACE_REGION_END;
pub use shared_mem::KernelStaticPage;
pub use shared_mem::ProcessStaticPage;
pub use shared_mem::UserThreadControlBlock;
pub use shared_mem::scaled_elapsed;
pub use shared_mem::friendly_id;
pub use shared_mem::lemma_clock_at_reference;
pub use shared_mem::lemma_clock_monotonic;
pub use shared_mem::lemma_friendly_id_injective;
pub use shared_mem::__utid;
pub use shared_mem::current_cpu;
pub use shared_mem::num_cpus;
