//! The FM section: three channels of four operators behind one register map.

use vstd::prelude::*;
use crate::bits;
use crate::channel;
use crate::channel::{Channel, ChannelPlan, ChannelState};
use crate::operator;

verus! {

/// Channels of the FM section.
pub const NUM_CH: usize = 3;

/// Slot that the registers of an address group belong to. The groups come in
/// the order of the physical operators 1, 3, 2, 4.
pub open spec fn slot_of_group(group: int) -> int {
    if group == 1 {
        2
    } else if group == 2 {
        1
    } else {
        group
    }
}

/// Channel and slot of an operator register, in a bank of sixteen addresses
/// that begins at `base`. Every fourth address belongs to no channel.
pub fn decode_op_addr(addr: u8, base: u8) -> (place: Option<(usize, usize)>)
    requires
        addr < base || base <= 0xF0,
    ensures
        place is Some <==> base <= addr <= base + 0x0F && (addr - base) % 4 != 3,
        place matches Some(p) ==> p.0 == (addr - base) % 4 && p.1 == slot_of_group(
            (addr - base) / 4,
        ),
{
    if addr < base || addr > base + 0x0F {
        return None;
    }
    let off: u8 = addr - base;
    proof {
        bits::lemma_byte_fields(off);
    }
    let ch: usize = (off & 3) as usize;
    if ch >= NUM_CH {
        return None;
    }
    let slot: usize = match off >> 2 {
        0 => 0,
        1 => 2,
        2 => 1,
        _ => 3,
    };
    Some((ch, slot))
}

/// The FM section.
#[derive(PartialEq, Eq, Debug)]
pub struct FmCore {
    channels: [Channel; 3],
    clock: u32,
}

/// Model of the FM section.
#[verifier::ext_equal]
pub struct FmState {
    pub channels: Seq<ChannelState>,
    pub clock: u32,
}

impl View for FmCore {
    type V = FmState;

    closed spec fn view(&self) -> FmState {
        FmState { channels: Seq::new(3, |ch: int| self.channels[ch]@), clock: self.clock }
    }
}

impl FmState {
    /// Every channel is valid and in tune with the clock.
    pub open spec fn wf(self) -> bool {
        &&& self.channels.len() == 3
        &&& forall|ch: int| 0 <= ch < 3 ==> (#[trigger] self.channels[ch]).wf()
        &&& forall|ch: int| 0 <= ch < 3 ==> (#[trigger] self.channels[ch]).in_tune(self.clock)
    }

    /// Whether two sections share the clock and the frequency mode of every channel.
    pub open spec fn same_frame(self, other: FmState) -> bool {
        &&& self.clock == other.clock
        &&& forall|ch: int|
            0 <= ch < 3 ==> (#[trigger] self.channels[ch]).special_mode
                == other.channels[ch].special_mode
    }

    pub open spec fn initial(clock: u32) -> FmState {
        FmState { channels: Seq::new(3, |ch: int| ChannelState::initial()), clock }
    }

    /// This section with another channel in place of channel `ch`.
    pub open spec fn with_channel(self, ch: int, channel: ChannelState) -> FmState {
        FmState { channels: self.channels.update(ch, channel), ..self }
    }

    pub open spec fn clocked(self, clock: u32) -> FmState {
        FmState { channels: Seq::new(3, |ch: int| self.channels[ch].tuned(clock)), clock }
    }

    pub open spec fn special(self, enabled: bool) -> FmState {
        self.with_channel(2, self.channels[2].special(enabled, self.clock))
    }

    /// This section after a write to the key register: bits 0 and 1 select a
    /// channel, bit 4 + `slot` is the new key of each of its operators.
    pub open spec fn keyed(self, data: u8) -> FmState {
        let ch = (data % 4) as int;
        if ch == 3 {
            self
        } else {
            self.with_channel(ch, self.channels[ch].keyed(data))
        }
    }

    /// This section after a register write. From 0x30 to 0x9F each operator
    /// has one register per bank of sixteen addresses. Each group of three
    /// addresses from 0xA0 on holds one register per channel, or, from 0xA8 to
    /// 0xAE, one register per operator of channel 3.
    pub open spec fn written(self, addr: u8, data: u8) -> FmState {
        let n = (addr % 4) as int;
        if n == 3 {
            self
        } else if 0x30 <= addr <= 0x9F {
            let slot = slot_of_group(((addr % 16) / 4) as int);
            self.with_channel(
                n,
                self.channels[n].op_written(slot, addr / 16, data, self.clock),
            )
        } else if 0xA0 <= addr <= 0xA2 {
            self.with_channel(n, self.channels[n].fnum_low_written(data, self.clock))
        } else if 0xA4 <= addr <= 0xA6 {
            self.with_channel(n, self.channels[n].fnum_high_written(data, self.clock))
        } else if 0xA8 <= addr <= 0xAA {
            self.with_channel(2, self.channels[2].special_low_written(n, data, self.clock))
        } else if 0xAC <= addr <= 0xAE {
            self.with_channel(2, self.channels[2].special_high_written(n, data, self.clock))
        } else if 0xB0 <= addr <= 0xB2 {
            self.with_channel(n, self.channels[n].algorithm_written(data))
        } else {
            self
        }
    }

    /// This section after the CSM pulse on channel 3.
    pub open spec fn csm_pulsed(self) -> FmState {
        self.with_channel(2, self.channels[2].pulsed())
    }

    /// This section after one sample.
    pub open spec fn advanced(self, reached: Seq<[bool; 4]>) -> FmState {
        FmState {
            channels: Seq::new(3, |ch: int| self.channels[ch].advanced(reached[ch]@)),
            ..self
        }
    }

    /// The attenuations that this sample sets in a channel.
    pub open spec fn advanced_levels(self, reached: Seq<[bool; 4]>, ch: int) -> Seq<Option<u8>> {
        self.channels[ch].advanced_levels(reached[ch]@)
    }
}

impl FmCore {
    pub fn new(clock: u32) -> (fm: Self)
        ensures
            fm@ == FmState::initial(clock),
            fm@.wf(),
    {
        let fm = FmCore { channels: [Channel::new(), Channel::new(), Channel::new()], clock };
        assert(fm@ =~= FmState::initial(clock));
        proof {
            channel::lemma_initial_in_tune(clock);
        }
        fm
    }

    /// One of the three channels.
    pub fn channel(&self, ch: usize) -> (channel: &Channel)
        requires
            ch < 3,
        ensures
            channel@ == self@.channels[ch as int],
            self@.wf() ==> channel@.wf(),
    {
        assert(self.channels[ch as int]@ == self@.channels[ch as int]);
        &self.channels[ch]
    }

    /// The clock that the pitches follow.
    pub fn clock(&self) -> (clock: u32)
        ensures
            clock == self@.clock,
    {
        self.clock
    }

    /// Changes the clock; every operator follows.
    pub fn set_clock(&mut self, clock: u32)
        requires
            old(self)@.wf(),
        ensures
            final(self)@ == old(self)@.clocked(clock),
            final(self)@.wf(),
    {
        let ghost before = self@;
        proof {
            self.lemma_channels_valid();
        }
        self.clock = clock;
        for ch in 0..3usize
            invariant
                before.wf(),
                self.clock == clock,
                forall|c: int|
                    0 <= c < ch ==> #[trigger] self.channels[c]@ == before.channels[c].tuned(clock),
                forall|c: int| 0 <= c < ch ==> (#[trigger] self.channels[c]@).in_tune(clock),
                forall|c: int| ch <= c < 3 ==> #[trigger] self.channels[c]@ == before.channels[c],
                forall|c: int| 0 <= c < 3 ==> (#[trigger] self.channels[c]@).wf(),
        {
            self.channels[ch].update_freqs(clock);
        }
        assert(self@ =~= before.clocked(clock));
    }

    /// What a valid section says of its channels, one by one.
    proof fn lemma_channels_valid(&self)
        requires
            self@.wf(),
        ensures
            forall|ch: int| 0 <= ch < 3 ==> (#[trigger] self.channels[ch]@).wf(),
            forall|ch: int| 0 <= ch < 3 ==> (#[trigger] self.channels[ch]@).in_tune(self.clock),
    {
        assert forall|ch: int| 0 <= ch < 3 implies (#[trigger] self.channels[ch]@).wf()
            && self.channels[ch]@.in_tune(self.clock) by {
            assert(self@.channels[ch].wf());
            assert(self@.channels[ch].in_tune(self@.clock));
        }
    }

    /// Turns the per-operator frequencies of channel 3 on or off.
    pub fn set_special_mode(&mut self, enabled: bool)
        requires
            old(self)@.wf(),
        ensures
            final(self)@ == old(self)@.special(enabled),
            final(self)@.wf(),
    {
        let ghost before = self@;
        proof {
            self.lemma_channels_valid();
        }
        self.channels[2].set_special_mode(enabled, self.clock);
        assert(self@ =~= before.special(enabled));
    }

    /// Register 0x28: key on/off control.
    /// bits0-1: channel select (0,1,2 -- value 3 is invalid/ignored)
    /// bits4-7: slot mask (S1,S2,S3,S4)
    pub fn key_control(&mut self, data: u8)
        requires
            old(self)@.wf(),
        ensures
            final(self)@ == old(self)@.keyed(data),
            final(self)@.wf(),
            final(self)@.same_frame(old(self)@),
    {
        let ghost before = self@;
        proof {
            bits::lemma_byte_fields(data);
            self.lemma_channels_valid();
        }
        let ch: usize = (data & 0x03) as usize;
        if ch >= NUM_CH {
            return;
        }
        self.channels[ch].key_control(data);
        assert(self.channels[ch as int]@.in_tune(self.clock)) by {
            assert(before.channels[ch as int].in_tune(self.clock));
        }
        assert(self@ =~= before.keyed(data));
    }

    /// CSM mode key-on and key-off pulse for channel 3, triggered by Timer A.
    pub fn csm_trigger(&mut self)
        requires
            old(self)@.wf(),
        ensures
            final(self)@ == old(self)@.csm_pulsed(),
            final(self)@.wf(),
    {
        let ghost before = self@;
        proof {
            self.lemma_channels_valid();
        }
        self.channels[2].csm_trigger();
        assert(self.channels[2]@.in_tune(self.clock)) by {
            assert(before.channels[2].in_tune(self.clock));
        }
        assert(self@ =~= before.csm_pulsed());
    }

    /// Writes an FM register. An address that belongs to no register changes nothing.
    #[verifier::rlimit(40)]
    pub fn write(&mut self, addr: u8, data: u8)
        requires
            old(self)@.wf(),
        ensures
            final(self)@ == old(self)@.written(addr, data),
            final(self)@.wf(),
            final(self)@.same_frame(old(self)@),
    {
        let ghost before = self@;
        let clock: u32 = self.clock;
        proof {
            self.lemma_channels_valid();
        }
        match addr {
            0x30..=0x9F => {
                let bank: u8 = addr / 16;
                if let Some((ch, slot)) = decode_op_addr(addr, bank * 16) {
                    self.channels[ch].write_op(slot, bank, data, clock);
                }
            },
            0xA0..=0xA2 => {
                self.channels[(addr - 0xA0) as usize].write_fnum_low(data, clock);
            },
            0xA4..=0xA6 => {
                self.channels[(addr - 0xA4) as usize].write_fnum_high(data, clock);
            },
            0xA8..=0xAA => {
                self.channels[2].write_special_low((addr - 0xA8) as usize, data, clock);
            },
            0xAC..=0xAE => {
                self.channels[2].write_special_high((addr - 0xAC) as usize, data, clock);
            },
            0xB0..=0xB2 => {
                self.channels[(addr - 0xB0) as usize].write_algorithm(data);
            },
            _ => {
                // unused on the YM2203
            },
        }
        assert(self@ =~= before.written(addr, data));
    }

    /// What every channel does during the next sample.
    pub fn render(&self) -> (plans: [ChannelPlan; 3])
        requires
            self@.wf(),
        ensures
            forall|ch: int| 0 <= ch < 3 ==> (#[trigger] plans[ch]).follows(self@.channels[ch]),
    {
        proof {
            self.lemma_channels_valid();
        }
        [self.channels[0].render(), self.channels[1].render(), self.channels[2].render()]
    }

    /// Ends one sample. `reached[ch][slot]` says whether the attenuation of
    /// that operator got to the end of the move that the plan gave. Returns
    /// the attenuations, in dB, that are set.
    pub fn advance(&mut self, reached: [[bool; 4]; 3]) -> (levels: [[Option<u8>; 4]; 3])
        requires
            old(self)@.wf(),
        ensures
            final(self)@ == old(self)@.advanced(reached@),
            forall|ch: int|
                0 <= ch < 3 ==> (#[trigger] levels[ch])@ == old(self)@.advanced_levels(
                    reached@,
                    ch,
                ),
            final(self)@.wf(),
    {
        let ghost before = self@;
        proof {
            self.lemma_channels_valid();
        }
        let levels_1 = self.channels[0].advance(reached[0]);
        let levels_2 = self.channels[1].advance(reached[1]);
        let levels_3 = self.channels[2].advance(reached[2]);
        assert(self@ =~= before.advanced(reached@));
        assert forall|ch: int| 0 <= ch < 3 implies (#[trigger] self@.channels[ch]).in_tune(
            self@.clock,
        ) by {
            assert(before.channels[ch].in_tune(before.clock));
        }
        [levels_1, levels_2, levels_3]
    }
}

/// Every operator has exactly one register in each bank: the address that
/// its channel and slot give is decoded back to them, and no other is.
pub proof fn law_operator_registers_unique(ch: int, slot: int, off: int)
    requires
        0 <= ch < 3,
        0 <= slot < 4,
        0 <= off < 16,
    ensures
        off % 4 == ch && slot_of_group(off / 4) == slot <==> off == 4 * slot_of_group(slot) + ch,
        slot_of_group(slot_of_group(slot)) == slot,
{
}

/// An FM register write leaves all but one channel as they are: from 0xA8 to
/// 0xAE it belongs to channel 3, elsewhere the address modulo 4 tells.
pub proof fn law_channels_independent(fm: FmState, addr: u8, data: u8, ch: int)
    requires
        fm.wf(),
        0 <= ch < 3,
        ch != if 0xA8 <= addr <= 0xAE {
            2
        } else {
            (addr % 4) as int
        },
    ensures
        fm.written(addr, data).channels[ch] == fm.channels[ch],
        fm.written(addr, data).clock == fm.clock,
{
}

/// A write to the key register gives every operator of the selected channel
/// the key that its bit asks for, and leaves the other channels as they are.
pub proof fn law_key_mask(fm: FmState, data: u8, ch: int, slot: int)
    requires
        fm.wf(),
        0 <= ch < 3,
        0 <= slot < 4,
    ensures
        ch == data % 4 ==> fm.keyed(data).channels[ch].ops[slot].key_on == bits::bit(
            data,
            (4 + slot) as u8,
        ),
        ch != data % 4 ==> fm.keyed(data).channels[ch] == fm.channels[ch],
        data % 4 == 3 ==> fm.keyed(data) == fm,
{
}

/// Writing a register twice with the same value is writing it once.
pub proof fn law_write_idempotent(fm: FmState, addr: u8, data: u8)
    requires
        fm.wf(),
    ensures
        fm.written(addr, data).written(addr, data) == fm.written(addr, data),
        fm.keyed(data).keyed(data) == fm.keyed(data),
{
    let once = fm.written(addr, data);
    let n = (addr % 4) as int;
    if n != 3 {
        let slot = slot_of_group(((addr % 16) / 4) as int);
        assert(fm.channels[n].wf());
        assert(fm.channels[2].wf());
        channel::law_op_write_idempotent(fm.channels[n], slot, addr / 16, data, fm.clock);
        channel::law_fnum_write_idempotent(fm.channels[n], data, fm.clock);
        channel::law_special_write_idempotent(fm.channels[2], n, data, fm.clock);
    }
    assert(once.written(addr, data) =~= once);
    let keyed = fm.keyed(data);
    let k = (data % 4) as int;
    if k != 3 {
        assert(fm.channels[k].wf());
        assert(keyed.keyed(data).channels[k] =~= keyed.channels[k]);
    }
    assert(keyed.keyed(data) =~= keyed);
}

/// A clock that is a multiple of another makes every pitch that multiple.
pub proof fn law_clock_scales_pitch(fm: FmState, clock: u32, k: nat, ch: int, slot: int)
    requires
        fm.wf(),
        0 <= ch < 3,
        0 <= slot < 4,
        k * clock <= u32::MAX,
    ensures
        fm.clocked((k * clock) as u32).channels[ch].ops[slot].pitch.base == k * fm.clocked(
            clock,
        ).channels[ch].ops[slot].pitch.base,
{
    let channel = fm.channels[ch];
    operator::law_pitch_proportional(
        channel.ops[slot],
        channel.slot_fnum(slot),
        channel.slot_block(slot),
        clock,
        k,
    );
}

/// Each bank of sixteen addresses holds one register for every operator: the
/// channel counts up by one, and the slots stand four apart in the order
/// first, third, second, fourth.
pub proof fn law_operator_address(fm: FmState, bank: u8, ch: u8, slot: int, data: u8)
    requires
        fm.wf(),
        3 <= bank <= 9,
        ch < 3,
        0 <= slot < 4,
    ensures
        ({
            let place = if slot == 0 {
                0int
            } else if slot == 1 {
                8
            } else if slot == 2 {
                4
            } else {
                12
            };
            fm.written((16 * bank + place + ch) as u8, data) == (FmState {
                channels: fm.channels.update(
                    ch as int,
                    fm.channels[ch as int].op_written(slot, bank, data, fm.clock),
                ),
                ..fm
            })
        }),
{
    let place = if slot == 0 {
        0int
    } else if slot == 1 {
        8
    } else if slot == 2 {
        4
    } else {
        12
    };
    let addr = (16 * bank + place + ch) as u8;
    assert(addr == 16 * bank + place + ch);
    assert(addr / 16 == bank);
    assert(addr % 16 == place + ch);
    assert(addr % 4 == ch);
}

/// Where the other registers stand: three channels side by side from 0xA0,
/// 0xA4 and 0xB0 on, and the first three operators of channel 3 from 0xA8 and
/// 0xAC on.
pub proof fn law_channel_address(fm: FmState, n: u8, data: u8)
    requires
        fm.wf(),
        n < 3,
    ensures
        ({
            let ch = n as int;
            let channel = fm.channels[ch];
            &&& fm.written((0xA0 + n) as u8, data).channels == fm.channels.update(
                ch,
                channel.fnum_low_written(data, fm.clock),
            )
            &&& fm.written((0xA4 + n) as u8, data).channels == fm.channels.update(
                ch,
                channel.fnum_high_written(data, fm.clock),
            )
            &&& fm.written((0xB0 + n) as u8, data).channels == fm.channels.update(
                ch,
                channel.algorithm_written(data),
            )
            &&& fm.written((0xA8 + n) as u8, data).channels == fm.channels.update(
                2,
                fm.channels[2].special_low_written(ch, data, fm.clock),
            )
            &&& fm.written((0xAC + n) as u8, data).channels == fm.channels.update(
                2,
                fm.channels[2].special_high_written(ch, data, fm.clock),
            )
        }),
{
}

/// Addresses between the registers, and outside of the map, change nothing,
/// and no register changes the clock.
pub proof fn law_other_addresses(fm: FmState, addr: u8, data: u8)
    ensures
        addr < 0x30 || addr > 0xB2 || addr % 4 == 3 ==> fm.written(addr, data) == fm,
        fm.written(addr, data).clock == fm.clock,
{
}

/// The low two bits of the key register select the channel whose keys its
/// high bits move. There is no fourth.
pub proof fn law_key_channel(fm: FmState, data: u8)
    requires
        fm.wf(),
    ensures
        data & 0x03 == 3 ==> fm.keyed(data) == fm,
        data & 0x03 != 3 ==> fm.keyed(data) == (FmState {
            channels: fm.channels.update(
                (data & 0x03) as int,
                fm.channels[(data & 0x03) as int].keyed(data),
            ),
            ..fm
        }),
{
    bits::lemma_byte_fields(data);
}

/// A new clock tunes every channel to it; the special mode and the CSM pulse
/// reach channel 3 alone; a sample steps every channel by its own report.
pub proof fn law_section(fm: FmState, clock: u32, enabled: bool, reached: Seq<[bool; 4]>, ch: int)
    requires
        fm.wf(),
        0 <= ch < 3,
    ensures
        fm.clocked(clock).clock == clock,
        fm.clocked(clock).channels.len() == 3,
        fm.clocked(clock).channels[ch] == fm.channels[ch].tuned(clock),
        fm.special(enabled) == (FmState {
            channels: fm.channels.update(2, fm.channels[2].special(enabled, fm.clock)),
            ..fm
        }),
        fm.csm_pulsed() == (FmState {
            channels: fm.channels.update(2, fm.channels[2].pulsed()),
            ..fm
        }),
        fm.advanced(reached).clock == fm.clock,
        fm.advanced(reached).channels.len() == 3,
        fm.advanced(reached).channels[ch] == fm.channels[ch].advanced(reached[ch]@),
        fm.advanced_levels(reached, ch) == fm.channels[ch].advanced_levels(reached[ch]@),
{
}

/// After power-up the section runs at the clock that it was given, with
/// three channels as after power-up.
pub proof fn law_power_up(clock: u32, ch: int)
    requires
        0 <= ch < 3,
    ensures
        FmState::initial(clock).clock == clock,
        FmState::initial(clock).channels.len() == 3,
        FmState::initial(clock).channels[ch] == ChannelState::initial(),
{
}

} // verus!
