use vstd::prelude::*;
use crate::hdw::bus::BUS;

verus! {

/// Collects one character of test-ROM serial output: when SC (0xFF02) reads 0x81 the
/// byte in SB (0xFF01) is appended to `msg` and SC is cleared.
pub fn dbg_update(bus: &mut BUS, msg: &mut Vec<u8>)
    requires
        old(bus).wf(),
    ensures
        final(bus).wf(),
        old(bus).read_spec(0xFF02) == 0x81 ==> final(msg)@ == old(msg)@.push(old(bus).read_spec(0xFF01))
            && *final(bus) == old(bus).written(0xFF02, 0),
        old(bus).read_spec(0xFF02) != 0x81 ==> final(msg)@ == old(msg)@ && *final(bus) == *old(bus),
{
    if bus.read_byte(0xFF02) == 0x81 {
        let c = bus.read_byte(0xFF01);
        msg.push(c);
        bus.write_byte(0xFF02, 0);
    }
}

} // verus!
