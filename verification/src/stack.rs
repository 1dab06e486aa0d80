use crate::error::SystemError;
use crate::pid::Pid;
use vstd::prelude::*;

verus! {

/// A virtual address, as a plain machine word.
#[derive(Debug, Clone, Copy, PartialEq, Eq, Structural)]
pub struct VirtAddr(pub usize);

impl VirtAddr {
    pub fn new(data: usize) -> (r: Self)
        ensures
            r.0 == data,
    {
        VirtAddr(data)
    }

    pub fn data(&self) -> (r: usize)
        ensures
            r == self.0,
    {
        self.0
    }

    pub open spec fn spec_is_null(&self) -> bool {
        self.0 == 0
    }

    #[verifier::when_used_as_spec(spec_is_null)]
    pub fn is_null(&self) -> (r: bool)
        ensures
            r == self.spec_is_null(),
    {
        self.0 == 0
    }

    pub open spec fn spec_check_aligned(&self, align: usize) -> bool {
        self.0 % align == 0
    }

    pub fn check_aligned(&self, align: usize) -> (r: bool)
        requires
            align > 0,
        ensures
            r == self.spec_check_aligned(align),
    {
        self.0 % align == 0
    }
}

/// The size in bytes of a kernel stack.
pub const KERNEL_STACK_SIZE: usize = 0x4000;

/// The alignment in bytes of a kernel stack's base address.
pub const KERNEL_STACK_ALIGN: usize = 0x4000;

/// A fixed-size, aligned memory region backing one execution context.
///
/// The region is modelled by its base address; the slot that the kernel
/// embeds at the region's lowest address — the owning process control
/// block — is modelled as an explicit owned slot holding the owner's pid,
/// so that construction and claiming order are explicit instead of relying
/// on a raw pointer stored in the memory itself.
#[derive(Debug)]
pub struct KernelStack {
    base: usize,
    pcb_slot: Option<Pid>,
    can_be_freed: bool,
}

impl KernelStack {
    /// A kernel stack is well formed when its base is non-null, aligned,
    /// and the whole region lies below the top of the address space.
    pub closed spec fn wf(&self) -> bool {
        &&& self.base != 0
        &&& self.base % KERNEL_STACK_ALIGN == 0
        &&& self.base + KERNEL_STACK_SIZE <= usize::MAX
    }

    pub closed spec fn spec_start_address(&self) -> usize {
        self.base
    }

    /// The pid recorded in the stack's owner slot, if any.
    pub closed spec fn spec_pcb(&self) -> Option<Pid> {
        self.pcb_slot
    }

    pub closed spec fn spec_can_be_freed(&self) -> bool {
        self.can_be_freed
    }

    /// Allocate a fresh kernel stack with an unclaimed owner slot.
    ///
    /// The model does not track real memory; the base address stands for
    /// whatever aligned region the allocator returned.
    pub fn new() -> (r: Result<Self, SystemError>)
        ensures
            r is Ok,
            r matches Ok(s) ==> s.wf() && s.spec_pcb() is None && s.spec_can_be_freed(),
    {
        Ok(KernelStack { base: KERNEL_STACK_ALIGN, pcb_slot: None, can_be_freed: true })
    }

    /// Construct a kernel stack over an existing memory region.
    ///
    /// Used only while bootstrapping the idle processes. The base must be
    /// non-null and aligned, and the region must not wrap around the top of
    /// the address space; otherwise the address is malformed.
    pub fn from_existed(base: VirtAddr) -> (r: Result<Self, SystemError>)
        ensures
            r matches Ok(s) ==> {
                &&& s.wf()
                &&& s.spec_start_address() == base.0
                &&& s.spec_pcb() is None
                &&& !s.spec_can_be_freed()
            },
            r is Ok <==> (!base.is_null() && base.spec_check_aligned(KERNEL_STACK_ALIGN)
                && base.0 + KERNEL_STACK_SIZE <= usize::MAX),
            r is Err ==> r == Result::<Self, SystemError>::Err(SystemError::EFAULT),
    {
        if base.is_null() || !base.check_aligned(KERNEL_STACK_ALIGN) {
            return Err(SystemError::EFAULT);
        }
        if base.data() > usize::MAX - KERNEL_STACK_SIZE {
            return Err(SystemError::EFAULT);
        }
        Ok(KernelStack { base: base.data(), pcb_slot: None, can_be_freed: false })
    }

    /// The lowest address of the stack region.
    pub fn start_address(&self) -> (r: VirtAddr)
        ensures
            r.0 == self.spec_start_address(),
    {
        VirtAddr::new(self.base)
    }

    /// One past the highest address of the stack region.
    pub fn stack_max_address(&self) -> (r: VirtAddr)
        requires
            self.wf(),
        ensures
            r.0 == self.spec_start_address() + KERNEL_STACK_SIZE,
    {
        VirtAddr::new(self.base + KERNEL_STACK_SIZE)
    }

    /// Record the owning process control block in the stack's owner slot.
    ///
    /// Fails with a permission error if the slot is already claimed.
    pub fn set_pcb(&mut self, pcb: Pid) -> (r: Result<(), SystemError>)
        ensures
            old(self).spec_pcb() is None ==> {
                &&& r is Ok
                &&& final(self).spec_pcb() == Some(pcb)
            },
            old(self).spec_pcb() is Some ==> {
                &&& r == Result::<(), SystemError>::Err(SystemError::EPERM)
                &&& *final(self) == *old(self)
            },
            final(self).spec_start_address() == old(self).spec_start_address(),
            final(self).spec_can_be_freed() == old(self).spec_can_be_freed(),
            final(self).wf() == old(self).wf(),
    {
        if self.pcb_slot.is_some() {
            return Err(SystemError::EPERM);
        }
        self.pcb_slot = Some(pcb);
        Ok(())
    }

    /// The pid of the process control block recorded in the owner slot.
    pub fn pcb(&self) -> (r: Option<Pid>)
        ensures
            r == self.spec_pcb(),
    {
        self.pcb_slot
    }
}

} // verus!
