//! VM-level states, summaries and the resource reservation check that
//! decides whether a new VM may be created on this host.

use crate::vm_id::{uuid_text, uuid_to_string};
use crate::text::{decimal, push_decimal, push_str, string_from_chars};
use vstd::prelude::*;

verus! {

/// Events that may be sent by the VM to the host.
#[derive(Debug, Clone, Copy, PartialEq, Eq)]
pub enum VmEvent {
    Ready,
}

/// The state of a VM.
#[derive(Debug, Clone, Copy, PartialEq, Eq)]
pub enum VmState {
    Booting,
    Running,
    Paused,
    Sleeping,
    /// The VM process has crashed or is unreachable.
    Dead,
}

/// The lowercase name of a state, as the API spells it.
pub open spec fn vm_state_name(s: VmState) -> Seq<char> {
    match s {
        VmState::Booting => "booting"@,
        VmState::Running => "running"@,
        VmState::Paused => "paused"@,
        VmState::Sleeping => "sleeping"@,
        VmState::Dead => "dead"@,
    }
}

impl VmState {
    /// The lowercase name of the state, as the API spells it.
    pub fn as_str(&self) -> (r: &'static str)
        ensures
            r@ == vm_state_name(*self),
    {
        match self {
            VmState::Booting => "booting",
            VmState::Running => "running",
            VmState::Paused => "paused",
            VmState::Sleeping => "sleeping",
            VmState::Dead => "dead",
        }
    }
}

/// The state a VM is reported in, from what the host learned in order: a
/// VM with a sleep snapshot is sleeping; else one still booting is booting;
/// else its process is asked whether it is paused, and a process that
/// cannot be asked is dead.
pub fn vm_state_from(has_sleep_snapshot: bool, booting: bool, paused: Option<bool>) -> (r: VmState)
    ensures
        has_sleep_snapshot ==> r == VmState::Sleeping,
        !has_sleep_snapshot && booting ==> r == VmState::Booting,
        !has_sleep_snapshot && !booting ==> r == match paused {
            Some(true) => VmState::Paused,
            Some(false) => VmState::Running,
            None => VmState::Dead,
        },
{
    if has_sleep_snapshot {
        VmState::Sleeping
    } else if booting {
        VmState::Booting
    } else {
        match paused {
            Some(true) => VmState::Paused,
            Some(false) => VmState::Running,
            None => VmState::Dead,
        }
    }
}

/// Minimized VM information relevant to the frontend.
#[derive(Debug, Clone)]
pub struct VmSummary {
    pub vm_id: String,
    pub state: VmState,
}

/// A max, total, and used reservation, with an accessor for the available
/// reservation.
#[derive(Debug, Clone, Copy, PartialEq, Eq)]
pub struct VmReservationField {
    /// The per-VM hard maximum.
    pub max: u32,
    /// The total amount reserved on the host machine.
    pub total: u32,
    /// The amount currently reserved for VMs.
    pub used: u32,
}

/// What is left of a reservation: `total - used`, or 0 when `used` exceeds
/// `total`.
pub open spec fn available_of(f: VmReservationField) -> u32 {
    if f.total >= f.used {
        (f.total - f.used) as u32
    } else {
        0
    }
}

impl VmReservationField {
    /// The amount still available: `total - used`, saturating at 0.
    pub fn available(&self) -> (r: u32)
        ensures
            r == available_of(*self),
    {
        self.total.saturating_sub(self.used)
    }
}

/// The host's reservations for the three resources a VM takes.
#[derive(Debug, Clone, Copy, PartialEq, Eq)]
pub struct VmReservation {
    pub vcpu_count: VmReservationField,
    pub memory_mib: VmReservationField,
    pub volume_mib: VmReservationField,
}

/// The resource a reservation check is about.
#[derive(Debug, Clone, Copy, PartialEq, Eq)]
pub enum VmAllocationType {
    Vcpu,
    Memory,
    Volume,
}

/// The display name of a resource.
pub open spec fn allocation_type_text(ty: VmAllocationType) -> Seq<char> {
    match ty {
        VmAllocationType::Vcpu => "vCPU count"@,
        VmAllocationType::Memory => "memory MiB"@,
        VmAllocationType::Volume => "volume MiB"@,
    }
}

impl VmAllocationType {
    /// The display name of the resource.
    pub fn to_string(&self) -> (r: String)
        ensures
            r@ == allocation_type_text(*self),
    {
        let mut out: Vec<char> = Vec::new();
        push_allocation_type(&mut out, *self);
        assert(out@ =~= allocation_type_text(*self));
        string_from_chars(out)
    }
}

fn push_allocation_type(out: &mut Vec<char>, ty: VmAllocationType)
    ensures
        final(out)@ == old(out)@ + allocation_type_text(ty),
{
    match ty {
        VmAllocationType::Vcpu => push_str(out, "vCPU count"),
        VmAllocationType::Memory => push_str(out, "memory MiB"),
        VmAllocationType::Volume => push_str(out, "volume MiB"),
    }
}

/// Why a new VM cannot be placed on this host.
#[derive(Debug, Clone, Copy, PartialEq, Eq)]
pub enum VmAllocationError {
    VmCountExceeded { current: u64, max: u64 },
    HardMaximumViolation { ty: VmAllocationType, requested: u32, max: u32 },
    InsufficientResources { ty: VmAllocationType, requested: u32, available: u32 },
}

/// The message of an allocation error.
pub open spec fn allocation_error_text(e: VmAllocationError) -> Seq<char> {
    match e {
        VmAllocationError::VmCountExceeded { current, max } => "Host has reached or exceeded maximum VM count: "@
            + decimal(current as nat) + " of "@ + decimal(max as nat),
        VmAllocationError::HardMaximumViolation { ty, requested, max } => "Requested VM violates hard maximum for "@
            + allocation_type_text(ty) + ". Requested: "@ + decimal(requested as nat)
            + "; Maximum: "@ + decimal(max as nat),
        VmAllocationError::InsufficientResources { ty, requested, available } => "Host does not have adequate "@
            + allocation_type_text(ty) + " for requested VM. Requested: "@ + decimal(
            requested as nat,
        ) + "; Available: "@ + decimal(available as nat),
    }
}

impl VmAllocationError {
    /// The error's message.
    pub fn to_string(&self) -> (r: String)
        ensures
            r@ == allocation_error_text(*self),
    {
        let mut out: Vec<char> = Vec::new();
        match *self {
            VmAllocationError::VmCountExceeded { current, max } => {
                push_str(&mut out, "Host has reached or exceeded maximum VM count: ");
                push_decimal(&mut out, current as u128);
                push_str(&mut out, " of ");
                push_decimal(&mut out, max as u128);
            },
            VmAllocationError::HardMaximumViolation { ty, requested, max } => {
                push_str(&mut out, "Requested VM violates hard maximum for ");
                push_allocation_type(&mut out, ty);
                push_str(&mut out, ". Requested: ");
                push_decimal(&mut out, requested as u128);
                push_str(&mut out, "; Maximum: ");
                push_decimal(&mut out, max as u128);
            },
            VmAllocationError::InsufficientResources { ty, requested, available } => {
                push_str(&mut out, "Host does not have adequate ");
                push_allocation_type(&mut out, ty);
                push_str(&mut out, " for requested VM. Requested: ");
                push_decimal(&mut out, requested as u128);
                push_str(&mut out, "; Available: ");
                push_decimal(&mut out, available as u128);
            },
        }
        assert(out@ =~= allocation_error_text(*self));
        string_from_chars(out)
    }
}

/// The verdict of the reservation check, in the order the checks are made:
/// the VM count first, then each resource against its per-VM hard maximum
/// (vCPUs, memory, volume), then each against what is still available.
pub open spec fn reservation_verdict(
    vm_count_current: u64,
    vm_count_max: u64,
    reservation: VmReservation,
    vcpu_count: u32,
    mem_size_mib: u32,
    volume_size_mib: u32,
) -> Result<(), VmAllocationError> {
    if vm_count_current >= vm_count_max {
        Err(VmAllocationError::VmCountExceeded { current: vm_count_current, max: vm_count_max })
    } else if vcpu_count > reservation.vcpu_count.max {
        Err(
            VmAllocationError::HardMaximumViolation {
                ty: VmAllocationType::Vcpu,
                requested: vcpu_count,
                max: reservation.vcpu_count.max,
            },
        )
    } else if mem_size_mib > reservation.memory_mib.max {
        Err(
            VmAllocationError::HardMaximumViolation {
                ty: VmAllocationType::Memory,
                requested: mem_size_mib,
                max: reservation.memory_mib.max,
            },
        )
    } else if volume_size_mib > reservation.volume_mib.max {
        Err(
            VmAllocationError::HardMaximumViolation {
                ty: VmAllocationType::Volume,
                requested: volume_size_mib,
                max: reservation.volume_mib.max,
            },
        )
    } else if vcpu_count > available_of(reservation.vcpu_count) {
        Err(
            VmAllocationError::InsufficientResources {
                ty: VmAllocationType::Vcpu,
                requested: vcpu_count,
                available: available_of(reservation.vcpu_count),
            },
        )
    } else if mem_size_mib > available_of(reservation.memory_mib) {
        Err(
            VmAllocationError::InsufficientResources {
                ty: VmAllocationType::Memory,
                requested: mem_size_mib,
                available: available_of(reservation.memory_mib),
            },
        )
    } else if volume_size_mib > available_of(reservation.volume_mib) {
        Err(
            VmAllocationError::InsufficientResources {
                ty: VmAllocationType::Volume,
                requested: volume_size_mib,
                available: available_of(reservation.volume_mib),
            },
        )
    } else {
        Ok(())
    }
}

/// A request fits when the host is below its VM count and each resource is
/// within both its per-VM maximum and what is still available.
pub open spec fn request_fits(
    vm_count_current: u64,
    vm_count_max: u64,
    reservation: VmReservation,
    vcpu_count: u32,
    mem_size_mib: u32,
    volume_size_mib: u32,
) -> bool {
    &&& vm_count_current < vm_count_max
    &&& vcpu_count <= reservation.vcpu_count.max
    &&& mem_size_mib <= reservation.memory_mib.max
    &&& volume_size_mib <= reservation.volume_mib.max
    &&& vcpu_count <= available_of(reservation.vcpu_count)
    &&& mem_size_mib <= available_of(reservation.memory_mib)
    &&& volume_size_mib <= available_of(reservation.volume_mib)
}

/// Ensures that a new VM with the given sizes would exceed neither the host's
/// VM count, nor a per-VM hard maximum, nor the current reservation. These
/// are the host's bookkeeping limits, not its actual state.
pub fn check_vm_reservation(
    vm_count_current: u64,
    vm_count_max: u64,
    reservation: &VmReservation,
    vcpu_count: u32,
    mem_size_mib: u32,
    volume_size_mib: u32,
) -> (r: Result<(), VmAllocationError>)
    ensures
        r == reservation_verdict(
            vm_count_current,
            vm_count_max,
            *reservation,
            vcpu_count,
            mem_size_mib,
            volume_size_mib,
        ),
        r is Ok <==> request_fits(
            vm_count_current,
            vm_count_max,
            *reservation,
            vcpu_count,
            mem_size_mib,
            volume_size_mib,
        ),
{
    if vm_count_current >= vm_count_max {
        return Err(
            VmAllocationError::VmCountExceeded { current: vm_count_current, max: vm_count_max },
        );
    }
    if vcpu_count > reservation.vcpu_count.max {
        return Err(
            VmAllocationError::HardMaximumViolation {
                ty: VmAllocationType::Vcpu,
                requested: vcpu_count,
                max: reservation.vcpu_count.max,
            },
        );
    }
    if mem_size_mib > reservation.memory_mib.max {
        return Err(
            VmAllocationError::HardMaximumViolation {
                ty: VmAllocationType::Memory,
                requested: mem_size_mib,
                max: reservation.memory_mib.max,
            },
        );
    }
    if volume_size_mib > reservation.volume_mib.max {
        return Err(
            VmAllocationError::HardMaximumViolation {
                ty: VmAllocationType::Volume,
                requested: volume_size_mib,
                max: reservation.volume_mib.max,
            },
        );
    }
    let vcpu_available = reservation.vcpu_count.available();
    if vcpu_count > vcpu_available {
        return Err(
            VmAllocationError::InsufficientResources {
                ty: VmAllocationType::Vcpu,
                requested: vcpu_count,
                available: vcpu_available,
            },
        );
    }
    let memory_available = reservation.memory_mib.available();
    if mem_size_mib > memory_available {
        return Err(
            VmAllocationError::InsufficientResources {
                ty: VmAllocationType::Memory,
                requested: mem_size_mib,
                available: memory_available,
            },
        );
    }
    let volume_available = reservation.volume_mib.available();
    if volume_size_mib > volume_available {
        return Err(
            VmAllocationError::InsufficientResources {
                ty: VmAllocationType::Volume,
                requested: volume_size_mib,
                available: volume_available,
            },
        );
    }
    Ok(())
}

/// A request that fits stays accepted when the host frees resources: with
/// `used` lowered and everything else equal, the check still passes.
pub proof fn lemma_reservation_monotone(
    vm_count_current: u64,
    vm_count_max: u64,
    reservation: VmReservation,
    freed: VmReservation,
    vcpu_count: u32,
    mem_size_mib: u32,
    volume_size_mib: u32,
)
    requires
        request_fits(
            vm_count_current,
            vm_count_max,
            reservation,
            vcpu_count,
            mem_size_mib,
            volume_size_mib,
        ),
        freed.vcpu_count.max == reservation.vcpu_count.max,
        freed.memory_mib.max == reservation.memory_mib.max,
        freed.volume_mib.max == reservation.volume_mib.max,
        freed.vcpu_count.total == reservation.vcpu_count.total,
        freed.memory_mib.total == reservation.memory_mib.total,
        freed.volume_mib.total == reservation.volume_mib.total,
        freed.vcpu_count.used <= reservation.vcpu_count.used,
        freed.memory_mib.used <= reservation.memory_mib.used,
        freed.volume_mib.used <= reservation.volume_mib.used,
    ensures
        reservation_verdict(
            vm_count_current,
            vm_count_max,
            freed,
            vcpu_count,
            mem_size_mib,
            volume_size_mib,
        ) is Ok,
{
}

/// Why a lifecycle operation was refused.
#[derive(Debug, Clone, PartialEq, Eq)]
pub enum VmLifecycleError {
    StillBooting { vm_id: String },
    IsPaused { vm_id: String },
    IsNotSleeping { vm_id: u128 },
}

/// The message of a lifecycle error.
pub open spec fn lifecycle_error_text(e: VmLifecycleError) -> Seq<char> {
    match e {
        VmLifecycleError::StillBooting { vm_id } => "VM "@ + vm_id@
            + " is not finished booting. Try again shortly."@,
        VmLifecycleError::IsPaused { vm_id } => "cannot perform operation: VM "@ + vm_id@
            + " is paused"@,
        VmLifecycleError::IsNotSleeping { vm_id } => "cannot perform operation: VM "@ + uuid_text(
            vm_id,
        ) + " is not sleeping"@,
    }
}

impl VmLifecycleError {
    /// The error's message.
    pub fn to_string(&self) -> (r: String)
        ensures
            r@ == lifecycle_error_text(*self),
    {
        let mut out: Vec<char> = Vec::new();
        match self {
            VmLifecycleError::StillBooting { vm_id } => {
                push_str(&mut out, "VM ");
                push_str(&mut out, vm_id.as_str());
                push_str(&mut out, " is not finished booting. Try again shortly.");
            },
            VmLifecycleError::IsPaused { vm_id } => {
                push_str(&mut out, "cannot perform operation: VM ");
                push_str(&mut out, vm_id.as_str());
                push_str(&mut out, " is paused");
            },
            VmLifecycleError::IsNotSleeping { vm_id } => {
                push_str(&mut out, "cannot perform operation: VM ");
                let id_text = uuid_to_string(*vm_id);
                push_str(&mut out, id_text.as_str());
                push_str(&mut out, " is not sleeping");
            },
        }
        assert(out@ =~= lifecycle_error_text(*self));
        string_from_chars(out)
    }
}

/// Only a sleeping VM can be woken: any other state is refused with
/// `IsNotSleeping`, before anything is fetched or acquired.
pub fn check_vm_is_sleeping(state: VmState, vm_id: u128) -> (r: Result<(), VmLifecycleError>)
    ensures
        r is Ok <==> state == VmState::Sleeping,
        r is Err ==> r == Err::<(), VmLifecycleError>(VmLifecycleError::IsNotSleeping { vm_id }),
{
    match state {
        VmState::Sleeping => Ok(()),
        _ => Err(VmLifecycleError::IsNotSleeping { vm_id }),
    }
}

/// Whether an operation on a VM may go ahead, given whether the VM is still
/// booting and whether the caller asked to wait for the boot to finish.
#[derive(Debug, Clone, Copy, PartialEq, Eq)]
pub enum BootGate {
    /// The VM has booted: go ahead.
    Proceed,
    /// Wait for the boot to finish, then go ahead.
    WaitForBoot,
    /// Refuse with `VmLifecycleError::StillBooting`.
    RefuseStillBooting,
}

/// Decides what an operation does about a VM that may still be booting.
pub fn boot_gate(booting: bool, wait_boot: bool) -> (r: BootGate)
    ensures
        !booting ==> r == BootGate::Proceed,
        booting && wait_boot ==> r == BootGate::WaitForBoot,
        booting && !wait_boot ==> r == BootGate::RefuseStillBooting,
{
    if !booting {
        BootGate::Proceed
    } else if wait_boot {
        BootGate::WaitForBoot
    } else {
        BootGate::RefuseStillBooting
    }
}

/// Why a disk resize was refused before anything was changed.
#[derive(Debug, Clone, Copy, PartialEq, Eq)]
pub enum DiskResizeError {
    /// The new size exceeds the per-VM hard maximum for volumes.
    Allocation(VmAllocationError),
    /// The new size is not larger than the current one.
    NotGrowing { requested: u32, current: u32 },
}

/// The message of a refused disk resize.
pub open spec fn disk_resize_error_text(e: DiskResizeError) -> Seq<char> {
    match e {
        DiskResizeError::Allocation(a) => allocation_error_text(a),
        DiskResizeError::NotGrowing { requested, current } => "New disk size ("@ + decimal(
            requested as nat,
        ) + " MiB) must be strictly greater than current size ("@ + decimal(current as nat)
            + " MiB). Shrinking is not supported."@,
    }
}

impl DiskResizeError {
    /// The error's message.
    pub fn to_string(&self) -> (r: String)
        ensures
            r@ == disk_resize_error_text(*self),
    {
        match self {
            DiskResizeError::Allocation(a) => a.to_string(),
            DiskResizeError::NotGrowing { requested, current } => {
                let mut out: Vec<char> = Vec::new();
                push_str(&mut out, "New disk size (");
                push_decimal(&mut out, *requested as u128);
                push_str(&mut out, " MiB) must be strictly greater than current size (");
                push_decimal(&mut out, *current as u128);
                push_str(&mut out, " MiB). Shrinking is not supported.");
                assert(out@ =~= disk_resize_error_text(*self));
                string_from_chars(out)
            },
        }
    }
}

/// Checks a requested disk size against the per-VM volume maximum, then
/// against the current size: a disk only grows.
pub fn check_disk_resize(new_fs_size_mib: u32, current_fs_size_mib: u32, max_volume_mib: u32) -> (r:
    Result<(), DiskResizeError>)
    ensures
        new_fs_size_mib > max_volume_mib ==> r == Err::<(), DiskResizeError>(
            DiskResizeError::Allocation(
                VmAllocationError::HardMaximumViolation {
                    ty: VmAllocationType::Volume,
                    requested: new_fs_size_mib,
                    max: max_volume_mib,
                },
            ),
        ),
        new_fs_size_mib <= max_volume_mib && new_fs_size_mib <= current_fs_size_mib ==> r == Err::<
            (),
            DiskResizeError,
        >(DiskResizeError::NotGrowing { requested: new_fs_size_mib, current: current_fs_size_mib }),
        r is Ok <==> current_fs_size_mib < new_fs_size_mib <= max_volume_mib,
{
    if new_fs_size_mib > max_volume_mib {
        Err(
            DiskResizeError::Allocation(
                VmAllocationError::HardMaximumViolation {
                    ty: VmAllocationType::Volume,
                    requested: new_fs_size_mib,
                    max: max_volume_mib,
                },
            ),
        )
    } else if new_fs_size_mib <= current_fs_size_mib {
        Err(DiskResizeError::NotGrowing { requested: new_fs_size_mib, current: current_fs_size_mib })
    } else {
        Ok(())
    }
}

} // verus!
