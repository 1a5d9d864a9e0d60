use rvm::arch::apic::{
    apic_to_cpu_id, delay_us, init_percpu, start_ap, ApicBase, ApicId, ApicMap, IpiStep, LocalApic,
};
use rvm::arch::{cpu, init_early};
use rvm::bringup::{
    primary_init_early, primary_init_late, rt_main, vm_cpu_entry, wait_for_counter, EarlyInit,
    EarlyStep, RtAction, VmAction, VmMain,
};
use rvm::config::HvSystemConfig;
use rvm::error::{HvError, HvErrorNum, HvResult};
use rvm::globals::Globals;
use rvm::header::HvHeader;
use rvm::lang;
use rvm::percpu::{PerCpu, PerCpuArray};

const EINVAL: HvError = HvError { num: HvErrorNum::EINVAL };

type Cpu = PerCpu<u64, u32>;

#[derive(Clone, Copy, Debug, PartialEq, Eq)]
enum Fate {
    Running,
    InGuest,
    Returned(i32),
    Halted,
}

struct Guest {
    apic_id: u32,
    cpu: Cpu,
    vm: VmMain,
    pending: Option<VmAction>,
    outcome: HvResult,
    fate: Fate,
}

struct Machine {
    header: HvHeader,
    array: PerCpuArray,
    globals: Globals,
    map: ApicMap,
    apic_base: u64,
    lapic: Option<LocalApic>,
    mapped_mmio: bool,
    config: Vec<u8>,
    low: Vec<u64>,
    guests: Vec<Guest>,
    rt_cpus: Vec<Cpu>,
    absent: Vec<u32>,
    panics_in_init: Option<u32>,
    now: u64,
    sent: Vec<IpiStep>,
    waited: Vec<u64>,
}

fn config_blob(signature: &[u8; 6], revision: u16) -> Vec<u8> {
    let mut bytes = vec![0u8; 120];
    bytes[..6].copy_from_slice(signature);
    bytes[6..8].copy_from_slice(&revision.to_le_bytes());
    bytes
}

fn low_memory() -> Vec<u64> {
    (0..3 * 512u64).map(|i| 0x5af3_0000 + i).collect()
}

impl Machine {
    fn new(max_cpus: u32, rt_cpus: u32, guest_apic_ids: &[u32]) -> Machine {
        let header = HvHeader {
            signature: *b"RVMIMAGE",
            core_size: 0x40_0000,
            percpu_size: 0x8_0000,
            entry: 0x1000,
            max_cpus,
            rt_cpus,
        };
        let array = PerCpuArray::new(0x4000_0000, max_cpus).unwrap();
        let mut machine = Machine {
            header,
            array,
            globals: Globals::new(),
            map: ApicMap::new(),
            apic_base: 0xfee0_0d00,
            lapic: None,
            mapped_mmio: false,
            config: config_blob(b"RVMSYS", 13),
            low: low_memory(),
            guests: Vec::new(),
            rt_cpus: Vec::new(),
            absent: Vec::new(),
            panics_in_init: None,
            now: 0,
            sent: Vec::new(),
            waited: Vec::new(),
        };
        for apic_id in guest_apic_ids {
            let cpu = Cpu::new(&mut machine.globals, &machine.array).unwrap();
            let vm = VmMain::new(cpu.id(), &machine.header);
            machine.guests.push(Guest {
                apic_id: *apic_id,
                cpu,
                vm,
                pending: None,
                outcome: Ok(()),
                fate: Fate::Running,
            });
        }
        machine
    }

    fn raw_id(&self, apic_id: u32) -> u32 {
        if self.lapic.unwrap().is_x2apic {
            apic_id
        } else {
            apic_id << 24
        }
    }

    fn early_init(&mut self) -> HvResult {
        let mut next = primary_init_early(&mut self.globals, None, Ok(()));
        loop {
            match next {
                EarlyInit::Done(result) => return result,
                EarlyInit::Run(step) => {
                    let outcome = match step {
                        EarlyStep::Config => match HvSystemConfig::get(&self.config) {
                            Some(config) => config.check(),
                            None => Err(EINVAL),
                        },
                        EarlyStep::Arch => match init_early(ApicBase::read(self.apic_base)) {
                            Ok(lapic) => {
                                self.mapped_mmio = lapic.mmio_region(0xffff_8000_fee0_0000).is_some();
                                self.lapic = Some(lapic);
                                Ok(())
                            }
                            Err(e) => Err(e),
                        },
                        _ => Ok(()),
                    };
                    next = primary_init_early(&mut self.globals, Some(step), outcome);
                }
            }
        }
    }

    fn rt_cpu_arrives(&mut self, apic_id: u32) {
        let mut cpu = Cpu::new(&mut self.globals, &self.array).unwrap();
        let raw = self.raw_id(apic_id);
        let lapic = self.lapic.unwrap();
        let inited = match init_percpu(&mut self.map, &lapic, raw, cpu.id()) {
            Ok(()) => cpu.init_rt_cpu().map(|_| ()),
            Err(e) => Err(e),
        };
        assert_eq!(rt_main(&mut self.globals, inited), RtAction::Idle);
        self.rt_cpus.push(cpu);
    }

    fn late_init(&mut self) -> HvResult {
        let before = self.low.clone();
        let stub: Vec<u64> = vec![0xfa; 64];
        let mut low = std::mem::take(&mut self.low);
        let entered = self.globals.entered_cpus;
        let started = match cpu::start_rt_cpus(
            Ok(()),
            &mut low,
            &stub,
            0xffff_ff00_0000_2000,
            0x7000_0000,
            &self.array,
            entered,
        ) {
            Err(e) => Err(e),
            Ok(mut boot) => {
                let lapic = self.lapic.unwrap();
                loop {
                    let entered = self.globals.entered_cpus;
                    let launch = match boot.next_launch(&mut low, &self.map, entered) {
                        Some(launch) => launch,
                        None => break,
                    };
                    assert_eq!(low[509], launch.stack_top as u64);
                    for step in start_ap(&lapic, launch.apic_id, 6) {
                        match step {
                            IpiStep::Delay(us) => {
                                let delay = delay_us(us, self.now, 4000);
                                while !delay.expired(self.now) {
                                    self.now += 10_000;
                                }
                            }
                            ipi => self.sent.push(ipi),
                        }
                    }
                    if !self.absent.contains(&launch.apic_id) {
                        self.rt_cpu_arrives(launch.apic_id);
                    }
                    let arrival = launch.await_arrival(self.now, 4000);
                    let since = self.now;
                    while arrival.pending(self.globals.entered_cpus, self.now) {
                        self.now += 1_000_000;
                    }
                    self.waited.push(self.now - since);
                }
                boot.finish(&mut low);
                Ok(())
            }
        };
        assert_eq!(low, before);
        self.low = low;
        primary_init_late(&mut self.globals, started)
    }

    fn turn(&mut self, index: usize) {
        if self.guests[index].fate != Fate::Running {
            return;
        }
        let action = match self.guests[index].pending {
            Some(action) => action,
            None => {
                let outcome = self.guests[index].outcome;
                let action = self.guests[index].vm.step(&mut self.globals, outcome);
                self.guests[index].pending = Some(action);
                action
            }
        };
        let outcome: Option<HvResult> = match action {
            VmAction::Wait { counter, target } => wait_for_counter(&self.globals, counter, target),
            VmAction::PrimaryInitEarly => Some(self.early_init()),
            VmAction::InitVmCpu => {
                let cpu_id = self.guests[index].cpu.id();
                if self.panics_in_init == Some(cpu_id) {
                    lang::panic(&mut self.globals);
                    self.guests[index].fate = Fate::Halted;
                    return;
                }
                let raw = self.raw_id(self.guests[index].apic_id);
                let lapic = self.lapic.unwrap();
                Some(match init_percpu(&mut self.map, &lapic, raw, cpu_id) {
                    Ok(()) => self.guests[index].cpu.init_vm_cpu(0x1000 + cpu_id as u64, cpu_id).map(|_| ()),
                    Err(e) => Err(e),
                })
            }
            VmAction::PrimaryInitLate => Some(self.late_init()),
            VmAction::ActivateVmm => {
                let data = self.guests[index].cpu.vm_cpu().unwrap();
                data.activate_vmm(&mut self.globals);
                self.guests[index].fate = Fate::InGuest;
                return;
            }
            VmAction::Return(result) => {
                let code = vm_cpu_entry(&mut self.globals, result);
                self.guests[index].fate = Fate::Returned(code);
                return;
            }
        };
        if let Some(outcome) = outcome {
            self.guests[index].outcome = outcome;
            self.guests[index].pending = None;
        }
    }

    fn run(&mut self) {
        for _ in 0..200 {
            for index in 0..self.guests.len() {
                self.turn(index);
            }
        }
    }

    fn fates(&self) -> Vec<Fate> {
        self.guests.iter().map(|guest| guest.fate).collect()
    }
}

#[test]
fn four_cpus_one_real_time() {
    let mut machine = Machine::new(4, 1, &[0, 1, 2]);
    let before = machine.low.clone();
    machine.run();
    assert_eq!(machine.fates(), vec![Fate::InGuest; 3]);
    assert_eq!(machine.globals.entered_cpus, 4);
    assert_eq!(machine.globals.inited_cpus, 3);
    assert_eq!(machine.globals.activated_cpus, 3);
    assert_eq!(machine.globals.error_num, 0);
    assert_eq!(machine.rt_cpus.len(), 1);
    assert!(machine.rt_cpus[0].rt_cpu().is_some());
    assert_eq!(machine.rt_cpus[0].id(), 3);
    assert_eq!(apic_to_cpu_id(&machine.map, 3), 3);
    assert_eq!(machine.low, before);
    for guest in machine.guests.iter_mut() {
        assert!(guest.cpu.vm_cpu().is_some());
        assert_eq!(apic_to_cpu_id(&machine.map, guest.apic_id), guest.cpu.id());
    }
}

#[test]
fn every_cpu_is_found_under_its_apic_id_alone() {
    let mut machine = Machine::new(4, 1, &[2, 0, 3]);
    machine.run();
    assert_eq!(machine.fates(), vec![Fate::InGuest; 3]);
    let mut pairs: Vec<(u32, u32)> =
        machine.guests.iter().map(|guest| (guest.apic_id, guest.cpu.id())).collect();
    pairs.push((1, machine.rt_cpus[0].id()));
    for (apic_id, cpu_id) in pairs {
        assert_eq!(apic_to_cpu_id(&machine.map, apic_id), cpu_id);
        let holders = (0..=254u32).filter(|id| apic_to_cpu_id(&machine.map, *id) == cpu_id).count();
        assert_eq!(holders, 1);
    }
}

#[test]
fn a_single_cpu_enters_the_guest_alone() {
    let mut machine = Machine::new(1, 0, &[0]);
    machine.run();
    assert_eq!(machine.fates(), vec![Fate::InGuest]);
    assert_eq!(machine.globals.entered_cpus, 1);
    assert_eq!(machine.globals.inited_cpus, 1);
    assert_eq!(machine.globals.activated_cpus, 1);
    assert_eq!(machine.globals.error_num, 0);
    assert!(machine.sent.is_empty());
    assert!(machine.rt_cpus.is_empty());
}

#[test]
fn two_guest_cpus_without_real_time_cpus() {
    let mut machine = Machine::new(2, 0, &[0, 1]);
    machine.run();
    assert_eq!(machine.fates(), vec![Fate::InGuest; 2]);
    assert_eq!(machine.globals.entered_cpus, 2);
    assert_eq!(machine.globals.activated_cpus, 2);
    assert!(machine.sent.is_empty());
    assert!(machine.waited.is_empty());
}

#[test]
fn the_primary_waits_for_a_second_guest_cpu_of_two() {
    let mut machine = Machine::new(2, 0, &[0]);
    machine.run();
    assert_eq!(machine.fates(), vec![Fate::Running]);
    assert_eq!(machine.globals.activated_cpus, 0);
    assert_eq!(machine.globals.init_early_ok, 0);
    assert_eq!(machine.globals.error_num, 0);
}

#[test]
fn an_absent_cpu_is_skipped_after_the_timeout() {
    let mut machine = Machine::new(4, 2, &[0, 1]);
    machine.absent = vec![3];
    machine.run();
    assert_eq!(machine.fates(), vec![Fate::InGuest; 2]);
    assert_eq!(machine.globals.entered_cpus, 3);
    assert_eq!(machine.globals.error_num, 0);
    assert_eq!(machine.globals.init_late_ok, 1);
    assert_eq!(machine.rt_cpus.len(), 1);
    assert_eq!(machine.waited.len(), 2);
    assert_eq!(machine.waited[0], 0);
    assert!(machine.waited[1] >= 100_000 * 4000);
    assert_eq!(apic_to_cpu_id(&machine.map, 2), 2);
    assert_eq!(apic_to_cpu_id(&machine.map, 3), u32::MAX);
}

#[test]
fn a_wrong_config_signature_fails_every_cpu() {
    let mut machine = Machine::new(4, 1, &[0, 1, 2]);
    let before = machine.low.clone();
    machine.config = config_blob(b"WRONG!", 13);
    machine.turn(0);
    machine.turn(0);
    assert_eq!(machine.guests[0].outcome, Err(EINVAL));
    machine.turn(0);
    assert_eq!(machine.guests[0].fate, Fate::Returned(-22));
    assert_eq!(machine.globals.error_num, -22);
    machine.run();
    assert_eq!(
        machine.fates(),
        vec![Fate::Returned(-22), Fate::Returned(-16), Fate::Returned(-16)]
    );
    assert_eq!(machine.globals.activated_cpus, 0);
    assert_eq!(machine.globals.init_early_ok, 0);
    assert_eq!(machine.low, before);
}

#[test]
fn a_wrong_config_revision_fails_the_early_init() {
    let mut machine = Machine::new(2, 0, &[0, 1]);
    machine.config = config_blob(b"RVMSYS", 12);
    assert_eq!(machine.early_init(), Err(EINVAL));
    assert_eq!(machine.globals.init_early_ok, 0);
    assert_eq!(vm_cpu_entry(&mut machine.globals, Err(EINVAL)), -22);
    assert_eq!(machine.globals.error_num, -22);
    let mut machine = Machine::new(2, 0, &[0, 1]);
    machine.config = config_blob(b"RVMSYS", 12);
    machine.run();
    assert_eq!(machine.fates(), vec![Fate::Returned(-22), Fate::Returned(-16)]);
}

#[test]
fn a_cpu_that_panics_in_its_init_fails_the_others() {
    let mut machine = Machine::new(4, 0, &[0, 1, 2, 3]);
    machine.panics_in_init = Some(2);
    machine.run();
    assert_eq!(
        machine.fates(),
        vec![Fate::Returned(-16), Fate::Returned(-16), Fate::Halted, Fate::Returned(-16)]
    );
    assert_eq!(machine.globals.activated_cpus, 0);
    assert_ne!(machine.globals.error_num, 0);
    assert_eq!(machine.globals.init_late_ok, 0);
}

#[test]
fn an_x2apic_machine_is_driven_without_mapping() {
    let mut machine = Machine::new(4, 2, &[0, 1]);
    machine.apic_base = 0xfee0_0d00;
    machine.run();
    assert_eq!(machine.lapic, Some(LocalApic { is_x2apic: true }));
    assert!(!machine.mapped_mmio);
    assert_eq!(machine.sent.len(), 6);
    for ipi in &machine.sent {
        match ipi {
            IpiStep::Init(dest) | IpiStep::Startup(dest, _) => {
                assert!(matches!(dest, ApicId::X2Apic(_)))
            }
            IpiStep::Delay(_) => unreachable!(),
        }
    }
    assert_eq!(machine.sent[0], IpiStep::Init(ApicId::X2Apic(2)));
    assert_eq!(machine.sent[1], IpiStep::Startup(ApicId::X2Apic(2), 6));
    assert_eq!(machine.sent[5], IpiStep::Startup(ApicId::X2Apic(3), 6));
    assert_eq!(machine.raw_id(3), 3);
}

#[test]
fn an_xapic_machine_maps_its_registers() {
    let mut machine = Machine::new(3, 1, &[0, 1]);
    machine.apic_base = 0xfee0_0900;
    machine.run();
    assert_eq!(machine.lapic, Some(LocalApic { is_x2apic: false }));
    assert!(machine.mapped_mmio);
    assert_eq!(machine.fates(), vec![Fate::InGuest; 2]);
    assert_eq!(machine.sent[0], IpiStep::Init(ApicId::XApic(2)));
    assert_eq!(apic_to_cpu_id(&machine.map, 2), 2);
}

#[test]
fn a_machine_without_an_apic_fails_with_an_io_error() {
    let mut machine = Machine::new(2, 0, &[0, 1]);
    machine.apic_base = 0xfee0_0100;
    machine.run();
    assert_eq!(machine.fates(), vec![Fate::Returned(-5), Fate::Returned(-16)]);
}

#[test]
fn a_header_without_guest_cpus_brings_up_no_real_time_cpu() {
    let mut machine = Machine::new(2, 2, &[0, 1]);
    machine.run();
    assert_eq!(machine.header.vm_cpus(), 2);
    assert_eq!(machine.fates(), vec![Fate::InGuest; 2]);
    assert!(machine.rt_cpus.is_empty());
    assert!(machine.sent.is_empty());
    assert_eq!(machine.globals.error_num, 0);
}
