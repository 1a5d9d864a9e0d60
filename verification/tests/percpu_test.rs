use rvm::consts::{PAGE_SIZE, PER_CPU_SIZE};
use rvm::error::{HvError, HvErrorNum};
use rvm::globals::Globals;
use rvm::percpu::{
    activated_vm_cpus, current_rt_cpu, current_vm_cpu, entered_cpus, InitStep, PerCpu,
    PerCpuArray, PerCpuInit, Role, VmPerCpuData,
};

const BASE: usize = 0x4000_0000;

type Cpu = PerCpu<u64, u32>;

fn array(max_cpus: u32) -> PerCpuArray {
    PerCpuArray::new(BASE, max_cpus).unwrap()
}

#[test]
fn stride_is_a_multiple_of_the_page_size() {
    assert_eq!(PAGE_SIZE, 4096);
    assert_eq!(PER_CPU_SIZE % PAGE_SIZE, 0);
    assert_eq!(PER_CPU_SIZE, 512 * 1024);
}

#[test]
fn array_needs_an_aligned_base() {
    assert!(PerCpuArray::new(0x1000, 4).is_some());
    assert!(PerCpuArray::new(0, 4).is_some());
    assert!(PerCpuArray::new(0x1001, 4).is_none());
    assert!(PerCpuArray::new(0x1800, 4).is_none());
    assert!(PerCpuArray::new(8, 0).is_none());
}

#[test]
fn array_must_end_inside_the_address_space() {
    let last = usize::MAX & !(PAGE_SIZE - 1);
    assert!(PerCpuArray::new(last, 0).is_some());
    assert!(PerCpuArray::new(last, 1).is_none());
    let room_for_two = (usize::MAX - 2 * PER_CPU_SIZE) & !(PAGE_SIZE - 1);
    assert!(PerCpuArray::new(room_for_two, 2).is_some());
    assert!(PerCpuArray::new(room_for_two, 3).is_none());
}

#[test]
fn array_keeps_max_cpus() {
    assert_eq!(array(4).max_cpus(), 4);
    assert_eq!(array(0).max_cpus(), 0);
}

#[test]
fn block_k_lies_at_base_plus_k_strides() {
    let a = array(8);
    for k in 0..8u32 {
        assert_eq!(a.vaddr_of(k), BASE + k as usize * PER_CPU_SIZE);
    }
    assert_eq!(a.vaddr_of(0), 0x4000_0000);
    assert_eq!(a.vaddr_of(1), 0x4008_0000);
    assert_eq!(a.vaddr_of(7), 0x4038_0000);
}

#[test]
fn stack_top_is_eight_bytes_below_the_next_block() {
    let a = array(4);
    assert_eq!(a.stack_top_of(0), 0x4007_fff8);
    assert_eq!(a.stack_top_of(3), 0x401f_fff8);
    for k in 0..3u32 {
        assert_eq!(a.stack_top_of(k) + 8, a.vaddr_of(k + 1));
    }
}

#[test]
fn new_hands_out_the_ids_in_order() {
    let a = array(3);
    let mut g = Globals::new();
    for k in 0..3u32 {
        let cpu = Cpu::new(&mut g, &a).unwrap();
        assert_eq!(cpu.id(), k);
        assert_eq!(cpu.self_vaddr(), BASE + k as usize * PER_CPU_SIZE);
        assert_eq!(cpu.stack_top(), cpu.self_vaddr() + PER_CPU_SIZE - 8);
        assert_eq!(entered_cpus(&g), k + 1);
    }
}

#[test]
fn new_refuses_a_cpu_beyond_max_cpus() {
    let a = array(2);
    let mut g = Globals::new();
    assert!(Cpu::new(&mut g, &a).is_ok());
    assert!(Cpu::new(&mut g, &a).is_ok());
    let refused = Cpu::new(&mut g, &a);
    assert_eq!(refused.unwrap_err(), HvError { num: HvErrorNum::EINVAL });
    assert_eq!(entered_cpus(&g), 3);
    assert!(Cpu::new(&mut g, &a).is_err());
}

#[test]
fn new_changes_nothing_but_the_entered_counter() {
    let a = array(2);
    let mut g = Globals {
        entered_cpus: 1,
        activated_cpus: 5,
        inited_cpus: 6,
        init_early_ok: 1,
        init_late_ok: 0,
        error_num: -16,
    };
    let before = g;
    let cpu = Cpu::new(&mut g, &a).unwrap();
    assert_eq!(cpu.id(), 1);
    assert_eq!(g, Globals { entered_cpus: 2, ..before });
}

#[test]
fn new_wraps_the_entered_counter() {
    let a = array(2);
    let mut g = Globals::new();
    g.entered_cpus = u32::MAX;
    assert!(Cpu::new(&mut g, &a).is_err());
    assert_eq!(g.entered_cpus, 0);
}

#[test]
fn a_new_cpu_has_no_role() {
    let a = array(1);
    let mut g = Globals::new();
    let mut cpu = Cpu::new(&mut g, &a).unwrap();
    assert!(cpu.vm_cpu().is_none());
    assert!(cpu.rt_cpu().is_none());
}

#[test]
fn from_id_mut_gives_the_block_of_that_cpu() {
    let a = array(4);
    let mut cpu = Cpu::from_id_mut(&a, 2);
    assert_eq!(cpu.id(), 2);
    assert_eq!(cpu.self_vaddr(), 0x4010_0000);
    assert_eq!(cpu.stack_top(), 0x4017_fff8);
    assert!(cpu.vm_cpu().is_none());
    assert!(cpu.rt_cpu().is_none());
}

#[test]
fn init_vm_cpu_makes_a_guest_cpu() {
    let a = array(1);
    let mut cpu = Cpu::from_id_mut(&a, 0);
    {
        let vm = cpu.init_vm_cpu(0xdead_beef, 7).unwrap();
        assert_eq!(vm.linux, 0xdead_beef);
        assert_eq!(vm.vcpu, 7);
        vm.vcpu = 8;
    }
    assert_eq!(cpu.vm_cpu().unwrap().vcpu, 8);
    assert!(cpu.rt_cpu().is_none());
    assert_eq!(cpu.id(), 0);
    assert_eq!(cpu.self_vaddr(), BASE);
}

#[test]
fn init_rt_cpu_makes_a_real_time_cpu() {
    let a = array(1);
    let mut cpu = Cpu::from_id_mut(&a, 0);
    assert!(cpu.init_rt_cpu().is_ok());
    assert!(cpu.rt_cpu().is_some());
    assert!(cpu.vm_cpu().is_none());
}

#[test]
fn a_cpu_takes_a_role_once() {
    let a = array(2);
    let mut vm = Cpu::from_id_mut(&a, 0);
    assert!(vm.init_vm_cpu(1, 2).is_ok());
    assert_eq!(vm.init_vm_cpu(3, 4).unwrap_err(), HvError { num: HvErrorNum::EINVAL });
    assert_eq!(vm.init_rt_cpu().unwrap_err(), HvError { num: HvErrorNum::EINVAL });
    let kept = vm.vm_cpu().unwrap();
    assert_eq!((kept.linux, kept.vcpu), (1, 2));

    let mut rt = Cpu::from_id_mut(&a, 1);
    assert!(rt.init_rt_cpu().is_ok());
    assert_eq!(rt.init_rt_cpu().unwrap_err(), HvError { num: HvErrorNum::EINVAL });
    assert_eq!(rt.init_vm_cpu(1, 2).unwrap_err(), HvError { num: HvErrorNum::EINVAL });
    assert!(rt.rt_cpu().is_some());
    assert!(rt.vm_cpu().is_none());
}

#[test]
fn current_accessors_follow_the_role() {
    let a = array(2);
    let mut vm = Cpu::from_id_mut(&a, 0);
    assert!(current_vm_cpu(&mut vm).is_none());
    assert!(current_rt_cpu(&mut vm).is_none());
    vm.init_vm_cpu(5, 6).unwrap();
    assert_eq!(current_vm_cpu(&mut vm).unwrap().linux, 5);
    assert!(current_rt_cpu(&mut vm).is_none());
    let mut rt = Cpu::from_id_mut(&a, 1);
    rt.init_rt_cpu().unwrap();
    assert!(current_rt_cpu(&mut rt).is_some());
    assert!(current_vm_cpu(&mut rt).is_none());
}

#[test]
fn activate_counts_the_cpu_and_hands_out_its_state() {
    let mut g = Globals::new();
    let mut data = VmPerCpuData { linux: 11u64, vcpu: 22u32 };
    {
        let (vcpu, linux) = data.activate_vmm(&mut g);
        assert_eq!((*vcpu, *linux), (22, 11));
        *vcpu = 23;
    }
    assert_eq!(data.vcpu, 23);
    assert_eq!(activated_vm_cpus(&g), 1);
    data.activate_vmm(&mut g);
    assert_eq!(activated_vm_cpus(&g), 2);
    assert_eq!(g, Globals { activated_cpus: 2, ..Globals::new() });
}

#[test]
fn deactivate_uncounts_the_cpu() {
    let mut g = Globals::new();
    g.activated_cpus = 3;
    let mut data = VmPerCpuData { linux: 11u64, vcpu: 22u32 };
    {
        let (vcpu, linux) = data.deactivate_vmm(&mut g);
        *vcpu += 1;
        *linux += 1;
    }
    assert_eq!((data.linux, data.vcpu), (12, 23));
    assert_eq!(activated_vm_cpus(&g), 2);
}

#[test]
fn deactivate_wraps_below_zero() {
    let mut g = Globals::new();
    let mut data = VmPerCpuData { linux: 0u64, vcpu: 0u32 };
    data.deactivate_vmm(&mut g);
    assert_eq!(activated_vm_cpus(&g), u32::MAX);
    data.activate_vmm(&mut g);
    assert_eq!(activated_vm_cpus(&g), 0);
}

#[test]
fn fault_hands_on_the_outcome_of_the_injection() {
    let mut data = VmPerCpuData { linux: 1u64, vcpu: 2u32 };
    assert_eq!(data.fault(Ok(())), Ok(()));
    let e = HvError { num: HvErrorNum::EIO };
    assert_eq!(data.fault(Err(e)), Err(e));
    assert_eq!((data.linux, data.vcpu), (1, 2));
}

fn init_order(cpu: &Cpu, target: Role) -> (Vec<InitStep>, PerCpuInit) {
    let mut order: Vec<InitStep> = Vec::new();
    let mut next = cpu.init_step(target, None, Ok(()));
    while let PerCpuInit::Run(step) = next {
        order.push(step);
        next = cpu.init_step(target, Some(step), Ok(()));
    }
    (order, next)
}

#[test]
fn a_guest_cpu_is_initialized_in_four_steps() {
    let cpu = Cpu::from_id_mut(&array(1), 0);
    assert_eq!(
        init_order(&cpu, Role::Vm),
        (
            vec![
                InitStep::LoadContext,
                InitStep::ActivatePageTable,
                InitStep::ArchInit,
                InitStep::CreateVcpu,
            ],
            PerCpuInit::Assign
        )
    );
}

#[test]
fn a_real_time_cpu_is_initialized_in_two_steps() {
    let cpu = Cpu::from_id_mut(&array(1), 0);
    assert_eq!(
        init_order(&cpu, Role::Rt),
        (vec![InitStep::ActivatePageTable, InitStep::ArchInit], PerCpuInit::Assign)
    );
}

#[test]
fn the_initialization_ends_at_the_first_failure() {
    let cpu = Cpu::from_id_mut(&array(1), 0);
    let erange = HvError { num: HvErrorNum::ERANGE };
    for step in [
        InitStep::LoadContext,
        InitStep::ActivatePageTable,
        InitStep::ArchInit,
        InitStep::CreateVcpu,
    ] {
        assert_eq!(cpu.init_step(Role::Vm, Some(step), Err(erange)), PerCpuInit::Failed(erange));
        assert_eq!(cpu.init_step(Role::Rt, Some(step), Err(erange)), PerCpuInit::Failed(erange));
    }
}

#[test]
fn a_cpu_with_a_role_is_not_initialized_again() {
    let einval = PerCpuInit::Failed(HvError { num: HvErrorNum::EINVAL });
    let mut vm = Cpu::from_id_mut(&array(2), 0);
    vm.init_vm_cpu(1, 2).unwrap();
    assert_eq!(vm.current_role(), Role::Vm);
    assert_eq!(vm.init_step(Role::Vm, None, Ok(())), einval);
    assert_eq!(vm.init_step(Role::Rt, None, Ok(())), einval);
    let mut rt = Cpu::from_id_mut(&array(2), 1);
    rt.init_rt_cpu().unwrap();
    assert_eq!(rt.current_role(), Role::Rt);
    assert_eq!(rt.init_step(Role::Vm, None, Ok(())), einval);
    assert_eq!(rt.init_step(Role::Rt, None, Ok(())), einval);
}

#[test]
fn no_cpu_is_initialized_to_no_role() {
    let cpu = Cpu::from_id_mut(&array(1), 0);
    assert_eq!(cpu.current_role(), Role::Uninit);
    assert_eq!(
        cpu.init_step(Role::Uninit, None, Ok(())),
        PerCpuInit::Failed(HvError { num: HvErrorNum::EINVAL })
    );
}
