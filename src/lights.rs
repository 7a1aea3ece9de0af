pub mod home_button;

use vstd::prelude::*;

use crate::command::SubCommand;
use crate::report::{select_by_bits, select_flags};
use crate::result::{JoyConError, JoyConResult};
use crate::subcommand::SubCommandReplyData;

verus! {

/// A player LED kept lit.
#[derive(Debug, Clone, Copy, Hash, Eq, PartialEq, Structural, Ord, PartialOrd)]
pub enum LightUp {
    /// Closest to the SL button
    LED0,
    LED1,
    LED2,
    /// Closest to the SR button
    LED3,
}

/// A player LED flashing.
#[derive(Debug, Clone, Copy, Hash, Eq, PartialEq, Structural, Ord, PartialOrd)]
pub enum Flash {
    /// Closest to the SL button
    LED0,
    LED1,
    LED2,
    /// Closest to the SR button
    LED3,
}

impl LightUp {
    pub open spec fn spec_bits(self) -> u8 {
        match self {
            LightUp::LED0 => 0x01,
            LightUp::LED1 => 0x02,
            LightUp::LED2 => 0x04,
            LightUp::LED3 => 0x08,
        }
    }

    /// The bit of this LED in the player-lights argument.
    #[verifier::when_used_as_spec(spec_bits)]
    pub fn bits(self) -> (r: u8)
        ensures
            r == self.spec_bits(),
    {
        match self {
            LightUp::LED0 => 0x01,
            LightUp::LED1 => 0x02,
            LightUp::LED2 => 0x04,
            LightUp::LED3 => 0x08,
        }
    }
}

impl Flash {
    pub open spec fn spec_bits(self) -> u8 {
        match self {
            Flash::LED0 => 0x10,
            Flash::LED1 => 0x20,
            Flash::LED2 => 0x40,
            Flash::LED3 => 0x80,
        }
    }

    /// The bit of this LED in the player-lights argument.
    #[verifier::when_used_as_spec(spec_bits)]
    pub fn bits(self) -> (r: u8)
        ensures
            r == self.spec_bits(),
    {
        match self {
            Flash::LED0 => 0x10,
            Flash::LED1 => 0x20,
            Flash::LED2 => 0x40,
            Flash::LED3 => 0x80,
        }
    }
}

pub open spec fn light_up_sum(s: Seq<LightUp>) -> nat
    decreases s.len(),
{
    if s.len() == 0 {
        0
    } else {
        light_up_sum(s.drop_last()) + s.last().spec_bits() as nat
    }
}

pub open spec fn flash_sum(s: Seq<Flash>) -> nat
    decreases s.len(),
{
    if s.len() == 0 {
        0
    } else {
        flash_sum(s.drop_last()) + s.last().spec_bits() as nat
    }
}

proof fn lemma_light_up_prefix(s: Seq<LightUp>, i: int)
    requires
        0 <= i <= s.len(),
    ensures
        light_up_sum(s.subrange(0, i)) <= light_up_sum(s),
    decreases s.len() - i,
{
    if i < s.len() {
        lemma_light_up_prefix(s, i + 1);
        assert(s.subrange(0, i + 1).drop_last() =~= s.subrange(0, i));
    } else {
        assert(s.subrange(0, i) =~= s);
    }
}

proof fn lemma_flash_prefix(s: Seq<Flash>, i: int)
    requires
        0 <= i <= s.len(),
    ensures
        flash_sum(s.subrange(0, i)) <= flash_sum(s),
    decreases s.len() - i,
{
    if i < s.len() {
        lemma_flash_prefix(s, i + 1);
        assert(s.subrange(0, i + 1).drop_last() =~= s.subrange(0, i));
    } else {
        assert(s.subrange(0, i) =~= s);
    }
}

/// The argument of the player-lights sub-command: the bits of the LEDs to
/// light added to the bits of those to flash.
pub fn player_lights_arg(light_up: &[LightUp], flash: &[Flash]) -> (r: u8)
    requires
        light_up_sum(light_up@) + flash_sum(flash@) <= 255,
    ensures
        r == light_up_sum(light_up@) + flash_sum(flash@),
{
    let mut acc: u8 = 0;
    let mut i: usize = 0;
    while i < light_up.len()
        invariant
            i <= light_up@.len(),
            light_up_sum(light_up@) + flash_sum(flash@) <= 255,
            acc == light_up_sum(light_up@.subrange(0, i as int)),
        decreases light_up@.len() - i,
    {
        proof {
            lemma_light_up_prefix(light_up@, i + 1);
            assert(light_up@.subrange(0, i + 1).drop_last() =~= light_up@.subrange(0, i as int));
        }
        acc = acc + light_up[i].bits();
        i += 1;
    }
    assert(light_up@.subrange(0, i as int) =~= light_up@);
    let mut j: usize = 0;
    while j < flash.len()
        invariant
            j <= flash@.len(),
            light_up_sum(light_up@) + flash_sum(flash@) <= 255,
            acc == light_up_sum(light_up@) + flash_sum(flash@.subrange(0, j as int)),
        decreases flash@.len() - j,
    {
        proof {
            lemma_flash_prefix(flash@, j + 1);
            assert(flash@.subrange(0, j + 1).drop_last() =~= flash@.subrange(0, j as int));
        }
        acc = acc + flash[j].bits();
        j += 1;
    }
    assert(flash@.subrange(0, j as int) =~= flash@);
    acc
}

/// The player-lights argument, or `None` when the bits add up to more than
/// a byte holds.
pub fn checked_player_lights_arg(light_up: &[LightUp], flash: &[Flash]) -> (r: Option<u8>)
    ensures
        light_up_sum(light_up@) + flash_sum(flash@) <= 255 ==> r == Some(
            (light_up_sum(light_up@) + flash_sum(flash@)) as u8,
        ),
        light_up_sum(light_up@) + flash_sum(flash@) > 255 ==> r is None,
{
    let mut acc: u16 = 0;
    let mut i: usize = 0;
    while i < light_up.len()
        invariant
            i <= light_up@.len(),
            acc == light_up_sum(light_up@.subrange(0, i as int)),
            acc <= 255,
        decreases light_up@.len() - i,
    {
        assert(light_up@.subrange(0, i + 1).drop_last() =~= light_up@.subrange(0, i as int));
        acc = acc + light_up[i].bits() as u16;
        i += 1;
        if acc > 255 {
            proof {
                lemma_light_up_prefix(light_up@, i as int);
            }
            return None;
        }
    }
    assert(light_up@.subrange(0, i as int) =~= light_up@);
    let mut j: usize = 0;
    while j < flash.len()
        invariant
            j <= flash@.len(),
            acc == light_up_sum(light_up@) + flash_sum(flash@.subrange(0, j as int)),
            acc <= 255,
        decreases flash@.len() - j,
    {
        assert(flash@.subrange(0, j + 1).drop_last() =~= flash@.subrange(0, j as int));
        acc = acc + flash[j].bits() as u16;
        j += 1;
        if acc > 255 {
            proof {
                lemma_flash_prefix(flash@, j as int);
            }
            return None;
        }
    }
    assert(flash@.subrange(0, j as int) =~= flash@);
    Some(player_lights_arg(light_up, flash))
}

pub open spec fn all_light_ups() -> Seq<LightUp> {
    seq![LightUp::LED0, LightUp::LED1, LightUp::LED2, LightUp::LED3]
}

pub open spec fn all_flashes() -> Seq<Flash> {
    seq![Flash::LED0, Flash::LED1, Flash::LED2, Flash::LED3]
}

/// State of the player lights, as the controller reports it.
#[derive(Debug, Clone, Hash, Eq, PartialEq)]
pub struct LightsStatus {
    pub light_up: Vec<LightUp>,
    pub flash: Vec<Flash>,
}

impl SubCommandReplyData for LightsStatus {
    open spec fn spec_sub_command() -> SubCommand {
        SubCommand::GetPlayerLights
    }

    open spec fn spec_args() -> Seq<u8> {
        Seq::empty()
    }

    open spec fn spec_rejects(reply: Seq<u8>) -> bool {
        false
    }

    open spec fn spec_error(reply: Seq<u8>, e: JoyConError) -> bool {
        false
    }

    /// The low nibble of the first byte gives the lit LEDs, the high nibble
    /// the flashing ones.
    open spec fn spec_decodes(self, reply: Seq<u8>) -> bool {
        &&& self.light_up@ == select_flags(all_light_ups(), reply[0], 4)
        &&& self.flash@ == select_flags(all_flashes(), reply[0] >> 4u8, 4)
    }

    fn sub_command() -> (r: SubCommand) {
        SubCommand::GetPlayerLights
    }

    fn args() -> (r: Vec<u8>) {
        Vec::new()
    }

    fn from_reply(value: [u8; 35]) -> (r: JoyConResult<LightsStatus>) {
        let lights = [LightUp::LED0, LightUp::LED1, LightUp::LED2, LightUp::LED3];
        let flashes = [Flash::LED0, Flash::LED1, Flash::LED2, Flash::LED3];
        assert(lights@ =~= all_light_ups());
        assert(flashes@ =~= all_flashes());
        let light_up = select_by_bits(&lights, value[0]);
        let flash = select_by_bits(&flashes, value[0] >> 4u8);
        Ok(LightsStatus { light_up, flash })
    }
}

} // verus!
