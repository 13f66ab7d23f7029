//! Immediate-caller validation, run by the syscall layer before a method
//! body executes.

use vstd::prelude::*;

use crate::address::Address;
use crate::cid::Cid;
use crate::error::{is_err, ErrorNumber, KernelError, SyscallResult};
use crate::kernel::{spec_resolve_of, DefaultKernel};

verus! {

/// Accepts any immediate caller.
pub fn validate_immediate_caller_accept_any(kernel: &mut DefaultKernel) -> (r: SyscallResult<()>)
    requires
        old(kernel).inv(),
    ensures
        final(kernel).inv(),
        *final(kernel) == *old(kernel),
        r is Ok,
{
    Ok(())
}

/// Accepts the immediate caller only if one of the given addresses resolves
/// to it; `Forbidden` otherwise.
pub fn validate_immediate_caller_addr_one_of(kernel: &DefaultKernel, addrs: &[Address]) -> (r:
    SyscallResult<()>)
    requires
        kernel.inv(),
    ensures
        r is Ok <==> exists|i: int|
            0 <= i < addrs@.len() && spec_resolve_of(kernel.call_manager, #[trigger] addrs@[i]@)
                == Some(kernel.caller),
        !(r is Ok) ==> is_err(r, ErrorNumber::Forbidden),
{
    let n = addrs.len();
    let mut i: usize = 0;
    while i < n
        invariant
            i <= n == addrs@.len(),
            kernel.inv(),
            forall|j: int|
                0 <= j < i ==> spec_resolve_of(kernel.call_manager, #[trigger] addrs@[j]@)
                    != Some(kernel.caller),
        decreases n - i,
    {
        match kernel.call_manager.resolve_address(&addrs[i]) {
            Some(id) if id == kernel.caller => {
                return Ok(());
            },
            _ => {},
        }
        i += 1;
    }
    Err(KernelError::Syscall(ErrorNumber::Forbidden))
}

/// Accepts the immediate caller only if its code CID is one of the given
/// ones; `Forbidden` otherwise (also when the caller no longer exists).
pub fn validate_immediate_caller_type_one_of(kernel: &DefaultKernel, cids: &[Cid]) -> (r:
    SyscallResult<()>)
    requires
        kernel.inv(),
    ensures
        r is Ok <==> (kernel.call_manager.state_tree.spec_get(kernel.caller) matches Some(st)
            && exists|i: int| 0 <= i < cids@.len() && (#[trigger] cids@[i]@) == st.code),
        !(r is Ok) ==> is_err(r, ErrorNumber::Forbidden),
{
    let caller_state = match kernel.call_manager.state_tree.get_actor(kernel.caller) {
        Some(st) => st,
        None => {
            return Err(KernelError::Syscall(ErrorNumber::Forbidden));
        },
    };
    let n = cids.len();
    let mut i: usize = 0;
    while i < n
        invariant
            i <= n == cids@.len(),
            kernel.call_manager.state_tree.spec_get(kernel.caller) == Some(caller_state@),
            forall|j: int| 0 <= j < i ==> (#[trigger] cids@[j]@) != caller_state@.code,
        decreases n - i,
    {
        if cids[i].eq_cid(&caller_state.code) {
            return Ok(());
        }
        i += 1;
    }
    Err(KernelError::Syscall(ErrorNumber::Forbidden))
}

} // verus!
