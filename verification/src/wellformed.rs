//! Well-formedness is an invariant of the bus and of all that hangs on it: it
//! holds at power-on, and every cycle, read and write keeps it.
use crate::bus::BusView;
use crate::ricoh2a03::model::CpuView;
use crate::ricoh2c02::model::PpuView;
use crate::ricoh2c02::wellformed::{lemma_io_wf, lemma_tick_wf, lemma_write_prg_wf};
use vstd::prelude::*;

verus! {

/// The bus is well formed at power-on.
pub proof fn lemma_bus_init_wf(ppu: PpuView)
    requires
        ppu.wf(),
    ensures
        BusView::init(ppu).wf(),
        CpuView::init(BusView::init(ppu)).wf(),
{
}

/// A cycle and a read keep the bus well formed.
pub proof fn lemma_bus_read_wf(b: BusView, address: u16)
    requires
        b.wf(),
    ensures
        b.tick().wf(),
        b.read(address).wf(),
        b.take_nmi().wf(),
        b.take_redraw().wf(),
{
    lemma_tick_wf(b.ppu);
    lemma_tick_wf(b.ppu.tick());
    lemma_tick_wf(b.ppu.tick().tick());
    lemma_io_wf(b.ppu, crate::bus::ppu_register(address), 0);
}

#[verifier::rlimit(40)]
proof fn lemma_dma_step_wf(b: BusView, page: u8, i: int)
    requires
        b.wf(),
        0 <= i < 256,
    ensures
        b.dma_step(page, i).wf(),
{
    reveal(BusView::dma_step);
    let address = (page * 256 + i) as u16;
    lemma_bus_read_wf(b, address);
    let fetched = b.tick();
    lemma_bus_read_wf(fetched, address);
    let ready = fetched.read(address).tick();
    lemma_bus_read_wf(fetched.read(address), address);
    lemma_io_wf(ready.ppu, crate::ricoh2c02::registers::PPU_OAMDATA, fetched.read_value(address));
}

proof fn lemma_dma_copy_wf(b: BusView, page: u8, i: int)
    requires
        b.wf(),
        0 <= i <= 256,
    ensures
        b.dma_copy(page, i).wf(),
    decreases 256 - i,
{
    if i < 256 {
        lemma_dma_step_wf(b, page, i);
        lemma_dma_copy_wf(b.dma_step(page, i), page, i + 1);
    }
}

/// A write keeps the bus well formed, a sprite DMA included.
#[verifier::rlimit(40)]
pub proof fn lemma_bus_write_wf(b: BusView, address: u16, value: u8)
    requires
        b.wf(),
    ensures
        b.write(address, value).wf(),
{
    lemma_io_wf(b.ppu, crate::bus::ppu_register(address), value);
    lemma_write_prg_wf(b.ppu.mapper, address, value);
    lemma_bus_read_wf(b, 0);
    lemma_bus_read_wf(b.tick(), 0);
    lemma_dma_copy_wf(b.tick(), value, 0);
    lemma_dma_copy_wf(b.tick().tick(), value, 0);
}

} // verus!
