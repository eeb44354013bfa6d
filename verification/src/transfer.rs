//! The sprite-table transfer as a whole: what the 161 DMA steps after the
//! write that starts it amount to.

use vstd::prelude::*;
use crate::mmu::{DmaConfig, DmaType, Mmu};
use crate::ppu::PPU;

verus! {

impl Mmu {
    /// The memory map after `n` DMA steps.
    pub open spec fn after_dma_steps(&self, n: nat) -> Mmu
        decreases n,
    {
        if n == 0 {
            *self
        } else {
            self.after_dma_steps((n - 1) as nat).after_cycle()
        }
    }

    /// Whether a source page lies in working RAM or its mirror, so that
    /// the transfer reads nothing that it changes.
    pub open spec fn source_in_wram(page: u8) -> bool {
        0xc0 <= page <= 0xfd
    }

    /// Whether `now` is where a sprite-table transfer that `self` is about
    /// to begin stands after `k` of its steps: the first `k - 1` bytes of
    /// the source are in the sprite table, `161 - k` steps are left, and
    /// nothing else has changed.
    pub open spec fn transfer_stands_at(&self, now: Mmu, k: int) -> bool {
        &&& now == (Mmu {
            ppu: PPU { sprite_attribute_table: now.ppu.sprite_attribute_table, ..self.ppu },
            dma_config: DmaConfig {
                count: (0xa1 - k) as usize,
                active: k < 161,
                ..self.dma_config
            },
            ..*self
        })
        &&& forall|i: int|
            0 <= i < 0xa0 ==> #[trigger] now.ppu.sprite_attribute_table[i] == (if i < k - 1 {
                self.read_value((self.dma_config.oam_source_address + i) as usize)
            } else {
                self.ppu.sprite_attribute_table[i]
            })
    }
}

/// Step by step, the sprite-table transfer copies the source page into the
/// sprite table and touches nothing else.
proof fn lemma_transfer_step(start: Mmu, k: nat)
    requires
        start.dma_config.dma_type == DmaType::Oam,
        start.dma_config.count == 0xa1,
        start.dma_config.active,
        0xc000 <= start.dma_config.oam_source_address <= 0xfd00,
        k <= 161,
    ensures
        start.transfer_stands_at(start.after_dma_steps(k), k as int),
    decreases k,
{
    if k > 0 {
        lemma_transfer_step(start, (k - 1) as nat);
        let prev = start.after_dma_steps((k - 1) as nat);
        let now = start.after_dma_steps(k);
        reveal(Mmu::after_cycle);
        reveal(Mmu::read_value);
        assert(now == prev.after_oam_step());
        if k >= 2 {
            let at = (start.dma_config.oam_source_address + (k - 2)) as usize;
            assert(prev.read_value(at) == start.read_value(at));
            assert(now.ppu.sprite_attribute_table@ == prev.ppu.sprite_attribute_table@.update(
                k - 2,
                start.read_value(at),
            ));
        }
    }
}

/// The sprite-table transfer: after a write of a page of working RAM to
/// 0xff46, the sprite table reads as 0xff until 161 DMA steps have run;
/// then it holds the first 160 bytes of the page as they were read before
/// the write, working RAM is as it was, and the transfer is over.
pub proof fn lemma_sprite_table_transfer(mmu: Mmu, page: u8)
    requires
        Mmu::source_in_wram(page),
    ensures
        forall|k: nat, address: usize|
            k < 161 && 0xfe00 <= address < 0xff00 ==> #[trigger] mmu.with_write(
                0xff46,
                page,
            ).after_dma_steps(k).read_value(address) == 0xff,
        forall|i: int|
            0 <= i < 0xa0 ==> #[trigger] mmu.with_write(0xff46, page).after_dma_steps(
                161,
            ).ppu.sprite_attribute_table[i] == mmu.read_value((page * 0x100 + i) as usize),
        mmu.with_write(0xff46, page).after_dma_steps(161).wram == mmu.wram,
        !mmu.with_write(0xff46, page).after_dma_steps(161).dma_config.active,
        mmu.with_write(0xff46, page).after_dma_steps(161).dma_config.count == 0,
{
    reveal(Mmu::with_write);
    reveal(Mmu::with_io_write);
    reveal(Mmu::read_value);
    let started = mmu.with_write(0xff46, page);
    assert(started == (Mmu { dma_config: mmu.dma_config.with_register(0xff46, page), ..mmu }));
    assert forall|k: nat, address: usize| k < 161 && 0xfe00 <= address < 0xff00 implies #[trigger]
        started.after_dma_steps(k).read_value(address) == 0xff by {
        lemma_transfer_step(started, k);
    }
    lemma_transfer_step(started, 161);
    assert forall|i: int| 0 <= i < 0xa0 implies #[trigger] started.after_dma_steps(
        161,
    ).ppu.sprite_attribute_table[i] == mmu.read_value((page * 0x100 + i) as usize) by {
        let at = (page * 0x100 + i) as usize;
        assert(started.read_value(at) == mmu.read_value(at));
    }
}

} // verus!
