//! The master schedule: one counter of master cycles from which every unit
//! of the machine is driven in a fixed order.

use vstd::prelude::*;
use crate::cartridge::Cartridge;
use crate::cpu::{CPU, CpuState, CpuError};
use crate::mmu::{Mmu, MmuError, DmaType};

verus! {

/// Master cycles between two polls of the host's input.
pub const INPUT_PERIOD: u32 = 4096;

/// The machine: the CPU, which owns everything else, and the wrapping
/// counter of master cycles.
pub struct GameBoy {
    pub cpu: CPU,
    pub cycle_count: u32,
}

/// The master cycles between two updates of the cartridge clock: 65536 at
/// normal speed, twice that at double speed, and twice as many again while
/// the host runs the machine at twice its pace.
pub open spec fn rtc_period(double_speed: bool, run_2x: bool) -> u32 {
    if double_speed {
        if run_2x {
            262144
        } else {
            131072
        }
    } else {
        if run_2x {
            131072
        } else {
            65536
        }
    }
}

/// The master cycles between two steps of the DMA engines: four for the
/// sprite-table transfer; for the others two, or four at double speed.
pub open spec fn dma_period(dma_type: DmaType, double_speed: bool) -> u32 {
    if dma_type == DmaType::Oam || double_speed {
        4
    } else {
        2
    }
}

/// Whether the CPU runs a machine cycle in this master cycle: in every
/// fourth at normal speed, in every second at double speed.
pub open spec fn cpu_due(cycle: u32, double_speed: bool) -> bool {
    if double_speed {
        cycle % 2 == 0
    } else {
        cycle % 4 == 0
    }
}

/// Whether a unit that stays at 4 MHz ticks in this master cycle: always
/// at normal speed, in every other cycle at double speed.
pub open spec fn base_clock_due(cycle: u32, double_speed: bool) -> bool {
    !double_speed || cycle % 2 == 0
}

impl CpuState {
    /// The CPU after the cartridge clock, the picture unit and the timer
    /// have seen master cycle `cycle`.
    pub open spec fn clocked(self, cycle: u32, run_2x: bool) -> CpuState {
        CpuState {
            mmu: self.mmu.with_clock_tick(
                cycle % rtc_period(self.mmu.double_speed, run_2x) == 0,
                base_clock_due(cycle, self.mmu.double_speed),
            ),
            ..self
        }
    }

    /// The CPU with the DMA engines and the audio unit moved on as master
    /// cycle `cycle` says. Whether the audio unit ticks goes by the speed
    /// at the start of the cycle.
    pub open spec fn served(self, cycle: u32, double_speed: bool) -> CpuState {
        let moved = if cycle % dma_period(self.mmu.dma_config.dma_type, double_speed) == 0 {
            self.mmu.after_cycle()
        } else {
            self.mmu
        };
        CpuState {
            mmu: if base_clock_due(cycle, double_speed) {
                moved.with_audio_tick()
            } else {
                moved
            },
            ..self
        }
    }

    /// The CPU after master cycle `cycle`, for a CPU that does not get
    /// stuck: the picture unit and the timer tick, the CPU runs a machine
    /// cycle when it is due, then the DMA engines and the audio unit have
    /// their turn. What is due goes by the speed at the start of the cycle.
    pub open spec fn after_master_cycle(self, cycle: u32, run_2x: bool) -> CpuState {
        let clocked = self.clocked(cycle, run_2x);
        (if cpu_due(cycle, self.mmu.double_speed) {
            clocked.after_cycle()
        } else {
            clocked
        }).served(cycle, self.mmu.double_speed)
    }
}

impl GameBoy {
    pub open spec fn wf(&self) -> bool {
        self.cpu.wf()
    }

    /// Whether the host's input is to be polled before the next master
    /// cycle.
    pub open spec fn input_is_due(&self) -> bool {
        self.cycle_count % INPUT_PERIOD == 0
    }

    /// Sets up the machine at power-on around a cartridge and a boot
    /// image. Fails exactly when the boot image is shorter than the
    /// machine's boot ROM.
    pub fn new(boot_image: &[u8], cartridge: Cartridge, dmg_mode: bool) -> (r: Result<
        GameBoy,
        MmuError,
    >)
        requires
            boot_image@.len() <= crate::mmu::BOOT_ROM_SIZE,
            cartridge.wf(),
        ensures
            r is Ok <==> boot_image@.len() >= (if dmg_mode {
                crate::mmu::DMG_BOOT_ROM_SIZE
            } else {
                crate::mmu::BOOT_ROM_SIZE
            }),
            r matches Ok(machine) ==> {
                &&& machine.wf()
                &&& machine.cycle_count == 0
                &&& machine.cpu.mmu.cartridge == cartridge
                &&& machine.cpu.mmu.dmg_mode == dmg_mode
                &&& machine.cpu.pc == 0
                &&& machine.cpu.cycles == 1
                &&& machine.cpu.opcode1 == 0
            },
    {
        match CPU::new(boot_image, cartridge, dmg_mode) {
            Ok(cpu) => Ok(GameBoy { cpu, cycle_count: 0 }),
            Err(e) => Err(e),
        }
    }

    /// Whether the host's input is to be polled, and handed to the joypad,
    /// before the next master cycle: every 4096 cycles.
    pub fn input_due(&self) -> (r: bool)
        ensures
            r == self.input_is_due(),
    {
        self.cycle_count % INPUT_PERIOD == 0
    }

    /// One master cycle. `run_2x` says whether the host runs the machine at
    /// twice its pace. Returns whether the picture unit has a frame to
    /// show. Fails exactly when the CPU is due and stuck on a byte that is
    /// no instruction; the picture unit and the timer have then ticked, and
    /// the cycle is not counted.
    pub fn execute_cycle(&mut self, run_2x: bool) -> (r: Result<bool, CpuError>)
        requires
            old(self).wf(),
        ensures
            final(self).wf(),
            match r {
                Ok(frame_ready) => {
                    &&& final(self).cpu@ == old(self).cpu@.after_master_cycle(
                        old(self).cycle_count,
                        run_2x,
                    )
                    &&& final(self).cycle_count == (if old(self).cycle_count == u32::MAX {
                        0
                    } else {
                        old(self).cycle_count + 1
                    })
                    &&& frame_ready == (base_clock_due(
                        old(self).cycle_count,
                        old(self).cpu.mmu.double_speed,
                    ) && old(self).cpu.mmu.ppu.delivers_frame())
                    &&& !(cpu_due(old(self).cycle_count, old(self).cpu.mmu.double_speed) && old(
                        self,
                    ).cpu@.clocked(old(self).cycle_count, run_2x).stuck())
                },
                Err(e) => {
                    &&& cpu_due(old(self).cycle_count, old(self).cpu.mmu.double_speed)
                    &&& old(self).cpu@.clocked(old(self).cycle_count, run_2x).stuck()
                    &&& e == CpuError::InvalidOpcode(old(self).cpu.opcode1)
                    &&& final(self).cpu@ == old(self).cpu@.clocked(old(self).cycle_count, run_2x)
                    &&& final(self).cycle_count == old(self).cycle_count
                },
            },
    {
        let double_speed = self.cpu.mmu.double_speed;
        let update_rtc_cycle: u32 = if double_speed {
            if run_2x {
                262144
            } else {
                131072
            }
        } else {
            if run_2x {
                131072
            } else {
                65536
            }
        };
        let base_due = !double_speed || self.cycle_count % 2 == 0;
        let frame_ready = self.clock(self.cycle_count % update_rtc_cycle == 0, base_due);
        let cpu_cycles: u32 = if double_speed {
            2
        } else {
            4
        };
        if self.cycle_count % cpu_cycles == 0 {
            match self.cpu.execute_cycle() {
                Ok(_) => {},
                Err(e) => {
                    return Err(e);
                },
            }
        }
        self.serve(double_speed);
        self.cycle_count = self.cycle_count.wrapping_add(1);
        Ok(frame_ready)
    }

    /// Lets the cartridge clock, the picture unit and the timer see the
    /// master cycle.
    fn clock(&mut self, rtc_due: bool, video_due: bool) -> (r: bool)
        requires
            old(self).wf(),
        ensures
            final(self).wf(),
            final(self).cycle_count == old(self).cycle_count,
            final(self).cpu@ == (CpuState {
                mmu: old(self).cpu.mmu.with_clock_tick(rtc_due, video_due),
                ..old(self).cpu@
            }),
            r == (video_due && old(self).cpu.mmu.ppu.delivers_frame()),
    {
        self.cpu.mmu.clock_tick(rtc_due, video_due)
    }

    /// Gives the DMA engines and the audio unit their turn.
    fn serve(&mut self, double_speed: bool)
        requires
            old(self).wf(),
        ensures
            final(self).wf(),
            final(self).cycle_count == old(self).cycle_count,
            final(self).cpu@ == old(self).cpu@.served(old(self).cycle_count, double_speed),
    {
        let dma_cycles: u32 = match self.cpu.mmu.dma_config.dma_type {
            DmaType::Oam => 4,
            _ => if !double_speed {
                2
            } else {
                4
            },
        };
        if self.cycle_count % dma_cycles == 0 {
            self.cpu.mmu.execute_cycle();
        }
        if !double_speed || self.cycle_count % 2 == 0 {
            self.cpu.mmu.audio_tick();
        }
    }
}

} // verus!
