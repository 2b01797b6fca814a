use std::cell::{Cell, RefCell};

use command::buffer::{
    Buffer, ExecutableState, IndividualReset, InitialState, InvalidState, Level, MultiShot,
    NoIndividualReset, OneShot, PendingState, PrimaryLevel, RecordingState, Reset,
    SecondaryLevel, SimultaneousUse, Usage, ONE_TIME_SUBMIT, RESET_COMMAND_BUFFER,
    SIMULTANEOUS_USE,
};
use command::capability::{
    Capability, Compute, General, Graphics, QueueFlags, Transfer, COMPUTE, GRAPHICS, TRANSFER,
};
use command::device::{CommandBufferLevel, Device, OutOfMemory};
use command::family::FamilyIndex;
use command::pool::{raw_handles, OwningPool, Pool};

/// Device double that hands out increasing handles and records every call.
struct MockDevice {
    next_handle: Cell<u64>,
    allocations: Cell<usize>,
    allocated: RefCell<Vec<usize>>,
    begun: RefCell<Vec<(u64, u32)>>,
    ended: RefCell<Vec<u64>>,
    freed: RefCell<Vec<Vec<u64>>>,
    resets: Cell<usize>,
    destroyed: Cell<usize>,
    fail: Cell<bool>,
    short: Cell<bool>,
}

impl MockDevice {
    fn new() -> Self {
        MockDevice {
            next_handle: Cell::new(100),
            allocations: Cell::new(0),
            allocated: RefCell::new(Vec::new()),
            begun: RefCell::new(Vec::new()),
            ended: RefCell::new(Vec::new()),
            freed: RefCell::new(Vec::new()),
            resets: Cell::new(0),
            destroyed: Cell::new(0),
            fail: Cell::new(false),
            short: Cell::new(false),
        }
    }
}

impl Device for MockDevice {
    fn begin_command_buffer(&self, buffer: u64, usage: u32) -> Result<(), OutOfMemory> {
        if self.fail.get() {
            return Err(OutOfMemory);
        }
        self.begun.borrow_mut().push((buffer, usage));
        Ok(())
    }

    fn end_command_buffer(&self, buffer: u64) -> Result<(), OutOfMemory> {
        if self.fail.get() {
            return Err(OutOfMemory);
        }
        self.ended.borrow_mut().push(buffer);
        Ok(())
    }

    fn allocate_command_buffers(
        &self,
        _pool: u64,
        _level: CommandBufferLevel,
        count: usize,
    ) -> Result<Vec<u64>, OutOfMemory> {
        if self.fail.get() {
            return Err(OutOfMemory);
        }
        self.allocations.set(self.allocations.get() + 1);
        self.allocated.borrow_mut().push(count);
        let n = if self.short.get() { count - 1 } else { count };
        let mut out = Vec::new();
        for _ in 0..n {
            out.push(self.next_handle.get());
            self.next_handle.set(self.next_handle.get() + 1);
        }
        Ok(out)
    }

    fn free_command_buffers(&self, _pool: u64, buffers: &Vec<u64>) {
        self.freed.borrow_mut().push(buffers.clone());
    }

    fn reset_command_pool(&self, _pool: u64) -> Result<(), OutOfMemory> {
        if self.fail.get() {
            return Err(OutOfMemory);
        }
        self.resets.set(self.resets.get() + 1);
        Ok(())
    }

    fn destroy_command_pool(&self, _pool: u64) {
        self.destroyed.set(self.destroyed.get() + 1);
    }
}

fn general_pool<R: Reset>(reset: R) -> Pool<QueueFlags, R> {
    Pool::from_raw(7, QueueFlags(GRAPHICS | COMPUTE), reset, FamilyIndex(2))
}

#[test]
fn one_shot_scenario_yields_submit_of_family_two() {
    let device = MockDevice::new();
    let mut pool = general_pool(NoIndividualReset);
    let mut buffers = pool.allocate_buffers(&device, PrimaryLevel, 1).unwrap();
    assert_eq!(buffers.len(), 1);
    let buffer = buffers.pop().unwrap();
    let allocated_raw = buffer.raw();
    let recording: Buffer<QueueFlags, RecordingState<OneShot>, PrimaryLevel> =
        buffer.begin(OneShot, &device).unwrap();
    let executable = recording.finish(&device).unwrap();
    let (submit, pending): (_, Buffer<QueueFlags, PendingState<InvalidState>, PrimaryLevel>) =
        executable.submit_once();
    assert_eq!(submit.family(), FamilyIndex(2));
    assert_eq!(submit.raw(), allocated_raw);
    assert_eq!(pending.raw(), allocated_raw);
    assert_eq!(*device.begun.borrow(), vec![(allocated_raw, ONE_TIME_SUBMIT)]);
    assert_eq!(*device.ended.borrow(), vec![allocated_raw]);
    let invalid = pending.complete();
    let initial = invalid.mark_reset();
    pool.free_buffers(&device, vec![initial]);
    assert_eq!(*device.freed.borrow(), vec![vec![allocated_raw]]);
    pool.dispose(&device);
    assert_eq!(device.destroyed.get(), 1);
}

#[test]
fn begin_finish_keeps_usage_and_identity() {
    let device = MockDevice::new();
    let buffer: Buffer<Graphics, InitialState, PrimaryLevel, IndividualReset> =
        Buffer::from_raw(42, Graphics, InitialState, PrimaryLevel, IndividualReset, FamilyIndex(5));
    let recording = buffer.begin(MultiShot(SimultaneousUse), &device).unwrap();
    let executable: Buffer<Graphics, ExecutableState<MultiShot<SimultaneousUse>>, PrimaryLevel, IndividualReset> =
        recording.finish(&device).unwrap();
    assert_eq!(executable.raw(), 42);
    assert_eq!(*device.begun.borrow(), vec![(42, SIMULTANEOUS_USE)]);
    let (submit, pending) = executable.submit();
    assert_eq!(submit.family(), FamilyIndex(5));
    pending.release();
}

#[test]
fn one_shot_completes_invalid_then_resets_and_records_again() {
    let device = MockDevice::new();
    let buffer = Buffer::from_raw(9, Compute, InitialState, PrimaryLevel, IndividualReset, FamilyIndex(1));
    let executable = buffer.begin(OneShot, &device).unwrap().finish(&device).unwrap();
    let (_, pending) = executable.submit_once();
    let invalid: Buffer<Compute, InvalidState, PrimaryLevel, IndividualReset> = pending.complete();
    let initial: Buffer<Compute, InitialState, PrimaryLevel, IndividualReset> = invalid.reset();
    assert_eq!(initial.raw(), 9);
    let again = initial.begin(OneShot, &device).unwrap();
    assert_eq!(device.begun.borrow().len(), 2);
    assert_eq!(again.into_raw(), 9);
}

#[test]
fn multi_shot_submits_again_after_completion() {
    let device = MockDevice::new();
    let buffer = Buffer::from_raw(11, General, InitialState, PrimaryLevel, NoIndividualReset, FamilyIndex(0));
    let executable = buffer.begin(MultiShot(()), &device).unwrap().finish(&device).unwrap();
    let (first, pending) = executable.submit();
    let executable: Buffer<General, ExecutableState<MultiShot>, PrimaryLevel> = pending.complete();
    let (second, pending) = executable.submit();
    assert_eq!(first.raw(), second.raw());
    assert_eq!(first.family(), second.family());
    assert_eq!(*device.begun.borrow(), vec![(11, 0)]);
    assert_eq!(device.ended.borrow().len(), 1);
    pending.release();
}

#[test]
fn begin_fails_when_device_fails() {
    let device = MockDevice::new();
    device.fail.set(true);
    let buffer = Buffer::from_raw(3, Transfer, InitialState, PrimaryLevel, NoIndividualReset, FamilyIndex(0));
    assert!(matches!(buffer.begin(OneShot, &device), Err(OutOfMemory)));
}

#[test]
fn finish_fails_when_device_fails() {
    let device = MockDevice::new();
    let buffer = Buffer::from_raw(3, Transfer, InitialState, PrimaryLevel, NoIndividualReset, FamilyIndex(0));
    let recording = buffer.begin(OneShot, &device).unwrap();
    device.fail.set(true);
    assert!(matches!(recording.finish(&device), Err(OutOfMemory)));
}

#[test]
fn change_state_applies_the_function() {
    let buffer = Buffer::from_raw(5, Graphics, InitialState, PrimaryLevel, NoIndividualReset, FamilyIndex(3));
    let executable = buffer.change_state(|_| ExecutableState(OneShot));
    let (submit, pending) = executable.submit_once();
    assert_eq!(submit.raw(), 5);
    assert_eq!(submit.family(), FamilyIndex(3));
    pending.release();
}

#[test]
fn marker_flags_match_native_values() {
    assert_eq!(PrimaryLevel.level(), CommandBufferLevel::Primary);
    assert_eq!(SecondaryLevel.level(), CommandBufferLevel::Secondary);
    assert_eq!(CommandBufferLevel::Secondary.level(), CommandBufferLevel::Secondary);
    assert_eq!(IndividualReset.flags(), RESET_COMMAND_BUFFER);
    assert_eq!(NoIndividualReset.flags(), 0);
    assert_eq!(OneShot.flags(), 1);
    assert_eq!(MultiShot(()).flags(), 0);
    assert_eq!(MultiShot(SimultaneousUse).flags(), 4);
}

#[test]
fn capability_narrows_only_to_subsets() {
    let flags = QueueFlags(GRAPHICS | COMPUTE);
    assert!(Graphics::from_flags(flags).is_some());
    assert!(Compute::from_flags(flags).is_some());
    assert!(General::from_flags(flags).is_some());
    assert!(Transfer::from_flags(flags).is_none());
    assert!(General::from_flags(QueueFlags(GRAPHICS)).is_none());
    assert_eq!(QueueFlags::from_flags(flags), Some(flags));
    assert_eq!(General.into_flags(), QueueFlags(3));
    assert_eq!(Transfer.into_flags(), QueueFlags(TRANSFER));
}

#[test]
fn pool_from_flags_succeeds_on_subset() {
    let device = MockDevice::new();
    let pool = general_pool(NoIndividualReset);
    let mut graphics: Pool<Graphics> = pool.from_flags::<Graphics>().ok().unwrap();
    let mut buffers = graphics.allocate_buffers(&device, SecondaryLevel, 2).unwrap();
    assert_eq!(buffers.len(), 2);
    let b = buffers.pop().unwrap();
    let a = buffers.pop().unwrap();
    assert_eq!((a.raw(), b.raw()), (100, 101));
    graphics.free_buffers(&device, vec![a, b]);
    graphics.dispose(&device);
}

#[test]
fn pool_from_flags_returns_pool_on_failure() {
    let device = MockDevice::new();
    let pool = general_pool(NoIndividualReset);
    let back = match pool.from_flags::<Transfer>() {
        Ok(_) => panic!("transfer is not among the flags"),
        Err(back) => back,
    };
    let mut back = back;
    let b = back.allocate_buffers(&device, PrimaryLevel, 1).unwrap().pop().unwrap();
    back.free_buffers(&device, vec![b]);
    let general = back.from_flags::<General>().ok().unwrap();
    general.dispose(&device);
}

#[test]
fn allocate_fails_on_short_batch() {
    let device = MockDevice::new();
    device.short.set(true);
    let mut pool = general_pool(IndividualReset);
    assert!(matches!(pool.allocate_buffers(&device, PrimaryLevel, 3), Err(OutOfMemory)));
    device.short.set(false);
    device.fail.set(true);
    assert!(matches!(pool.allocate_buffers(&device, PrimaryLevel, 3), Err(OutOfMemory)));
    pool.dispose(&device);
}

#[test]
fn pool_reset_reaches_device() {
    let device = MockDevice::new();
    let mut pool = general_pool(NoIndividualReset);
    assert_eq!(pool.reset(&device), Ok(()));
    assert_eq!(device.resets.get(), 1);
    device.fail.set(true);
    assert_eq!(pool.reset(&device), Err(OutOfMemory));
    pool.dispose(&device);
}

#[test]
fn wrap_buffers_stamps_each_handle() {
    let pool = general_pool(IndividualReset);
    let buffers = pool.wrap_buffers(PrimaryLevel, vec![8, 9, 10]);
    let raws = raw_handles(buffers);
    assert_eq!(raws, vec![8, 9, 10]);
    assert_eq!(raw_handles::<QueueFlags, InitialState, PrimaryLevel, IndividualReset>(Vec::new()), Vec::<u64>::new());
    let device = MockDevice::new();
    pool.dispose(&device);
}

fn owning_pool() -> OwningPool<QueueFlags, PrimaryLevel> {
    OwningPool::from_inner(general_pool(NoIndividualReset), PrimaryLevel)
}

#[test]
fn owning_pool_reuses_handles_after_reset() {
    let device = MockDevice::new();
    let mut pool = owning_pool();
    let mut first = Vec::new();
    for _ in 0..3 {
        let b = pool.acquire_buffer(&device).unwrap();
        first.push(b.raw());
        b.into_raw();
    }
    assert_eq!(first, vec![100, 101, 102]);
    assert_eq!(device.allocations.get(), 3);
    pool.reset(&device).unwrap();
    let mut second = Vec::new();
    for _ in 0..2 {
        let b = pool.acquire_buffer(&device).unwrap();
        second.push(b.raw());
        b.into_raw();
    }
    assert_eq!(second, vec![100, 101]);
    assert_eq!(device.allocations.get(), 3);
    assert_eq!(pool.dispose(&device), Ok(()));
    assert_eq!(*device.freed.borrow(), vec![vec![100, 101, 102]]);
    assert_eq!(device.destroyed.get(), 1);
}

#[test]
fn reserve_allocates_one_batch() {
    let device = MockDevice::new();
    let mut pool = owning_pool();
    pool.reserve(&device, 4).unwrap();
    assert_eq!(device.allocations.get(), 1);
    assert_eq!(*device.allocated.borrow(), vec![4]);
    let mut raws = Vec::new();
    for _ in 0..4 {
        let b = pool.acquire_buffer(&device).unwrap();
        raws.push(b.into_raw());
    }
    assert_eq!(raws, vec![100, 101, 102, 103]);
    assert_eq!(device.allocations.get(), 1);
    pool.reserve(&device, 0).unwrap();
    assert_eq!(device.allocations.get(), 1);
    pool.reserve(&device, 2).unwrap();
    assert_eq!(*device.allocated.borrow(), vec![4, 2]);
    pool.dispose(&device).unwrap();
}

#[test]
fn reserve_allocates_only_the_shortfall() {
    let device = MockDevice::new();
    let mut pool = owning_pool();
    pool.reserve(&device, 2).unwrap();
    pool.acquire_buffer(&device).unwrap().into_raw();
    pool.reserve(&device, 3).unwrap();
    assert_eq!(*device.allocated.borrow(), vec![2, 2]);
    pool.reserve(&device, 3).unwrap();
    assert_eq!(device.allocations.get(), 2);
    pool.dispose(&device).unwrap();
}

#[test]
fn acquire_fails_when_allocation_fails() {
    let device = MockDevice::new();
    let mut pool = owning_pool();
    device.fail.set(true);
    assert!(matches!(pool.acquire_buffer(&device), Err(OutOfMemory)));
    device.fail.set(false);
    device.short.set(true);
    assert!(matches!(pool.reserve(&device, 2), Err(OutOfMemory)));
    device.short.set(false);
    let b = pool.acquire_buffer(&device).unwrap();
    assert_eq!(b.into_raw(), 101);
    pool.dispose(&device).unwrap();
}

#[test]
fn owning_pool_from_flags_keeps_handles_and_cursor() {
    let device = MockDevice::new();
    let mut pool = owning_pool();
    pool.reserve(&device, 2).unwrap();
    pool.acquire_buffer(&device).unwrap().into_raw();
    let mut pool = match pool.from_flags::<Transfer>() {
        Ok(_) => panic!("transfer is not among the flags"),
        Err(back) => back,
    };
    assert_eq!(pool.acquire_buffer(&device).unwrap().into_raw(), 101);
    let mut compute: OwningPool<Compute, PrimaryLevel> = pool.from_flags::<Compute>().ok().unwrap();
    assert_eq!(compute.acquire_buffer(&device).unwrap().into_raw(), 102);
    assert_eq!(*device.allocated.borrow(), vec![2, 1]);
    compute.dispose(&device).unwrap();
}

#[test]
fn owning_pool_reset_failure_keeps_cursor() {
    let device = MockDevice::new();
    let mut pool = owning_pool();
    pool.acquire_buffer(&device).unwrap().into_raw();
    device.fail.set(true);
    assert_eq!(pool.reset(&device), Err(OutOfMemory));
    device.fail.set(false);
    assert_eq!(pool.acquire_buffer(&device).unwrap().into_raw(), 101);
    assert_eq!(pool.dispose(&device), Ok(()));
}

#[test]
fn wrap_batch_checks_the_count() {
    let pool = general_pool(NoIndividualReset);
    assert!(matches!(pool.wrap_batch(PrimaryLevel, vec![1, 2], 3), Err(OutOfMemory)));
    let buffers = pool.wrap_batch(PrimaryLevel, vec![4, 5], 2).unwrap();
    assert_eq!(raw_handles(buffers), vec![4, 5]);
    pool.dispose(&MockDevice::new());
}

#[test]
fn retain_batch_appends_the_handles_given() {
    let device = MockDevice::new();
    let mut pool = owning_pool();
    assert_eq!(pool.retain_batch(vec![7, 8], 3), Err(OutOfMemory));
    assert_eq!(pool.retain_batch(vec![7, 8], 2), Ok(()));
    assert_eq!(pool.acquire_buffer(&device).unwrap().into_raw(), 7);
    assert_eq!(pool.acquire_buffer(&device).unwrap().into_raw(), 8);
    assert_eq!(device.allocations.get(), 0);
    pool.dispose(&device).unwrap();
    assert_eq!(*device.freed.borrow(), vec![vec![7, 8]]);
}

#[test]
fn reserve_refuses_a_count_past_usize() {
    let device = MockDevice::new();
    let mut pool = owning_pool();
    pool.acquire_buffer(&device).unwrap().into_raw();
    assert_eq!(pool.reserve(&device, usize::MAX), Err(OutOfMemory));
    assert_eq!(device.allocations.get(), 1);
    pool.dispose(&device).unwrap();
}
