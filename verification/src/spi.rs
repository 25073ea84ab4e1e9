use vstd::prelude::*;

use crate::error::ProtocolError;

verus! {

/// The factory configuration and calibration region of the emulated
/// flash, served for selector 0x60 (the high byte of address 0x6000).
pub open spec fn factory_config_region() -> Seq<u8> {
    seq![
        0xffu8, 0xffu8, 0xffu8, 0xffu8, 0xffu8, 0xffu8, 0xffu8, 0xffu8, 0xffu8, 0xffu8, 0xffu8, 0xffu8,
        0xffu8, 0xffu8, 0xffu8, 0xffu8, 0xffu8, 0xffu8, 0x03u8, 0xa0u8, 0xffu8, 0xffu8, 0xffu8, 0xffu8,
        0xffu8, 0xffu8, 0xffu8, 0x02u8, 0xffu8, 0xffu8, 0xffu8, 0xffu8, 0xf0u8, 0xffu8, 0x89u8, 0x00u8,
        0xf0u8, 0x01u8, 0x00u8, 0x40u8, 0x00u8, 0x40u8, 0x00u8, 0x40u8, 0xf9u8, 0xffu8, 0x06u8, 0x00u8,
        0x09u8, 0x00u8, 0xe7u8, 0x3bu8, 0xe7u8, 0x3bu8, 0xe7u8, 0x3bu8, 0xffu8, 0xffu8, 0xffu8, 0xffu8,
        0xffu8, 0xbau8, 0x15u8, 0x62u8, 0x11u8, 0xb8u8, 0x7fu8, 0x29u8, 0x06u8, 0x5bu8, 0xffu8, 0xe7u8,
        0x7eu8, 0x0eu8, 0x36u8, 0x56u8, 0x9eu8, 0x85u8, 0x60u8, 0xffu8, 0x32u8, 0x32u8, 0x32u8, 0xffu8,
        0xffu8, 0xffu8, 0xffu8, 0xffu8, 0xffu8, 0xffu8, 0xffu8, 0xffu8, 0xffu8, 0xffu8, 0xffu8, 0xffu8,
        0xffu8, 0xffu8, 0xffu8, 0xffu8, 0xffu8, 0xffu8, 0xffu8, 0xffu8, 0xffu8, 0xffu8, 0xffu8, 0xffu8,
        0xffu8, 0xffu8, 0xffu8, 0xffu8, 0xffu8, 0xffu8, 0xffu8, 0xffu8, 0xffu8, 0xffu8, 0xffu8, 0xffu8,
        0xffu8, 0xffu8, 0xffu8, 0xffu8, 0xffu8, 0xffu8, 0xffu8, 0xffu8, 0x50u8, 0xfdu8, 0x00u8, 0x00u8,
        0xc6u8, 0x0fu8, 0x0fu8, 0x30u8, 0x61u8, 0x96u8, 0x30u8, 0xf3u8, 0xd4u8, 0x14u8, 0x54u8, 0x41u8,
        0x15u8, 0x54u8, 0xc7u8, 0x79u8, 0x9cu8, 0x33u8, 0x36u8, 0x63u8, 0x0fu8, 0x30u8, 0x61u8, 0x96u8,
        0x30u8, 0xf3u8, 0xd4u8, 0x14u8, 0x54u8, 0x41u8, 0x15u8, 0x54u8, 0xc7u8, 0x79u8, 0x9cu8, 0x33u8,
        0x36u8, 0x63u8, 0xffu8, 0xffu8, 0xffu8, 0xffu8, 0xffu8, 0xffu8,
    ]
}

/// The user calibration region of the emulated flash, served for selector
/// 0x80 (the high byte of address 0x8000).
pub open spec fn user_calibration_region() -> Seq<u8> {
    seq![
        0xffu8, 0xffu8, 0xffu8, 0xffu8, 0xffu8, 0xffu8, 0xffu8, 0xffu8, 0xffu8, 0xffu8, 0xffu8, 0xffu8,
        0xffu8, 0xffu8, 0xffu8, 0xffu8, 0xffu8, 0xffu8, 0xffu8, 0xffu8, 0xffu8, 0xffu8, 0xffu8, 0xffu8,
        0xffu8, 0xffu8, 0xffu8, 0xffu8, 0xffu8, 0xffu8, 0xffu8, 0xffu8, 0xffu8, 0xffu8, 0xffu8, 0xffu8,
        0xffu8, 0xffu8, 0xb2u8, 0xa1u8, 0xbeu8, 0xffu8, 0x3eu8, 0x00u8, 0xf0u8, 0x01u8, 0x00u8, 0x40u8,
        0x00u8, 0x40u8, 0x00u8, 0x40u8, 0xfeu8, 0xffu8, 0xfeu8, 0xffu8, 0x08u8, 0x00u8, 0xe7u8, 0x3bu8,
        0xe7u8, 0x3bu8, 0xe7u8, 0x3bu8,
    ]
}

/// The flash table: the region a one-byte high-address selector names, or
/// nothing for a selector the emulated ROM does not hold.
pub open spec fn spi_region(selector: u8) -> Option<Seq<u8>> {
    if selector == 0x60 {
        Some(factory_config_region())
    } else if selector == 0x80 {
        Some(user_calibration_region())
    } else {
        None
    }
}

/// The emulated SPI flash: an immutable copy of the factory data regions,
/// populated once when communication starts and only ever read.
pub struct SpiFlash {
    rom_factory: Vec<u8>,
    rom_user: Vec<u8>,
}

impl SpiFlash {
    /// The stored bytes are exactly the regions of the flash table.
    pub closed spec fn wf(&self) -> bool {
        self.rom_factory@ == factory_config_region() && self.rom_user@
            == user_calibration_region()
    }

    /// Build the flash table from the literal hardware dump data.
    pub fn new() -> (r: Self)
        ensures
            r.wf(),
    {
        let rom_factory: Vec<u8> = vec![
            0xffu8, 0xffu8, 0xffu8, 0xffu8, 0xffu8, 0xffu8, 0xffu8, 0xffu8, 0xffu8, 0xffu8, 0xffu8, 0xffu8,
            0xffu8, 0xffu8, 0xffu8, 0xffu8, 0xffu8, 0xffu8, 0x03u8, 0xa0u8, 0xffu8, 0xffu8, 0xffu8, 0xffu8,
            0xffu8, 0xffu8, 0xffu8, 0x02u8, 0xffu8, 0xffu8, 0xffu8, 0xffu8, 0xf0u8, 0xffu8, 0x89u8, 0x00u8,
            0xf0u8, 0x01u8, 0x00u8, 0x40u8, 0x00u8, 0x40u8, 0x00u8, 0x40u8, 0xf9u8, 0xffu8, 0x06u8, 0x00u8,
            0x09u8, 0x00u8, 0xe7u8, 0x3bu8, 0xe7u8, 0x3bu8, 0xe7u8, 0x3bu8, 0xffu8, 0xffu8, 0xffu8, 0xffu8,
            0xffu8, 0xbau8, 0x15u8, 0x62u8, 0x11u8, 0xb8u8, 0x7fu8, 0x29u8, 0x06u8, 0x5bu8, 0xffu8, 0xe7u8,
            0x7eu8, 0x0eu8, 0x36u8, 0x56u8, 0x9eu8, 0x85u8, 0x60u8, 0xffu8, 0x32u8, 0x32u8, 0x32u8, 0xffu8,
            0xffu8, 0xffu8, 0xffu8, 0xffu8, 0xffu8, 0xffu8, 0xffu8, 0xffu8, 0xffu8, 0xffu8, 0xffu8, 0xffu8,
            0xffu8, 0xffu8, 0xffu8, 0xffu8, 0xffu8, 0xffu8, 0xffu8, 0xffu8, 0xffu8, 0xffu8, 0xffu8, 0xffu8,
            0xffu8, 0xffu8, 0xffu8, 0xffu8, 0xffu8, 0xffu8, 0xffu8, 0xffu8, 0xffu8, 0xffu8, 0xffu8, 0xffu8,
            0xffu8, 0xffu8, 0xffu8, 0xffu8, 0xffu8, 0xffu8, 0xffu8, 0xffu8, 0x50u8, 0xfdu8, 0x00u8, 0x00u8,
            0xc6u8, 0x0fu8, 0x0fu8, 0x30u8, 0x61u8, 0x96u8, 0x30u8, 0xf3u8, 0xd4u8, 0x14u8, 0x54u8, 0x41u8,
            0x15u8, 0x54u8, 0xc7u8, 0x79u8, 0x9cu8, 0x33u8, 0x36u8, 0x63u8, 0x0fu8, 0x30u8, 0x61u8, 0x96u8,
            0x30u8, 0xf3u8, 0xd4u8, 0x14u8, 0x54u8, 0x41u8, 0x15u8, 0x54u8, 0xc7u8, 0x79u8, 0x9cu8, 0x33u8,
            0x36u8, 0x63u8, 0xffu8, 0xffu8, 0xffu8, 0xffu8, 0xffu8, 0xffu8,
        ];
        let rom_user: Vec<u8> = vec![
            0xffu8, 0xffu8, 0xffu8, 0xffu8, 0xffu8, 0xffu8, 0xffu8, 0xffu8, 0xffu8, 0xffu8, 0xffu8, 0xffu8,
            0xffu8, 0xffu8, 0xffu8, 0xffu8, 0xffu8, 0xffu8, 0xffu8, 0xffu8, 0xffu8, 0xffu8, 0xffu8, 0xffu8,
            0xffu8, 0xffu8, 0xffu8, 0xffu8, 0xffu8, 0xffu8, 0xffu8, 0xffu8, 0xffu8, 0xffu8, 0xffu8, 0xffu8,
            0xffu8, 0xffu8, 0xb2u8, 0xa1u8, 0xbeu8, 0xffu8, 0x3eu8, 0x00u8, 0xf0u8, 0x01u8, 0x00u8, 0x40u8,
            0x00u8, 0x40u8, 0x00u8, 0x40u8, 0xfeu8, 0xffu8, 0xfeu8, 0xffu8, 0x08u8, 0x00u8, 0xe7u8, 0x3bu8,
            0xe7u8, 0x3bu8, 0xe7u8, 0x3bu8,
        ];
        proof {
            assert(rom_factory@ =~= factory_config_region());
            assert(rom_user@ =~= user_calibration_region());
        }
        SpiFlash { rom_factory, rom_user }
    }

    /// Serve a read of `length` bytes starting at `offset` within the
    /// region named by `selector`. An unknown selector is a miss; a range
    /// that leaves the stored region is rejected rather than read out of
    /// bounds.
    pub fn read(&self, selector: u8, offset: u8, length: u8) -> (r: Result<
        Vec<u8>,
        ProtocolError,
    >)
        requires
            self.wf(),
        ensures
            match spi_region(selector) {
                Some(region) => {
                    &&& (r is Ok <==> offset + length <= region.len())
                    &&& (r is Ok ==> r->Ok_0@ == region.subrange(
                        offset as int,
                        offset + length,
                    ))
                    &&& (r is Err ==> r->Err_0 == ProtocolError::SpiBadRange)
                },
                None => r == Err::<Vec<u8>, ProtocolError>(ProtocolError::SpiMiss),
            },
    {
        let rom: &Vec<u8> = if selector == 0x60 {
            &self.rom_factory
        } else if selector == 0x80 {
            &self.rom_user
        } else {
            return Err(ProtocolError::SpiMiss);
        };
        let end: usize = offset as usize + length as usize;
        if end > rom.len() {
            return Err(ProtocolError::SpiBadRange);
        }
        let mut data: Vec<u8> = Vec::new();
        let mut i: usize = offset as usize;
        while i < end
            invariant
                offset <= i <= end,
                end <= rom@.len(),
                data@ == rom@.subrange(offset as int, i as int),
            decreases end - i,
        {
            data.push(rom[i]);
            i = i + 1;
            proof {
                assert(data@ =~= rom@.subrange(offset as int, i as int));
            }
        }
        Ok(data)
    }
}

} // verus!
