//! ROM images: the 16-byte header, the PRG/CHR banks behind it, and the
//! nametable mirroring the board wires up.

use vstd::prelude::*;

verus! {

/// Why a ROM image was rejected at load time.
#[derive(Debug, Clone, Copy, PartialEq, Eq, Structural)]
pub enum LoadError {
    /// The four magic bytes at the start of the image are wrong.
    BadSignature,
    /// The image ends before the data its header announces.
    TooShort,
    /// The header announces zero program banks, so there is no code to run.
    NoPrgBanks,
    /// The header names a mapper this library does not implement.
    UnsupportedMapper(u8),
}

/// The fixed 16-byte header at the front of a ROM image.
#[derive(Debug, Clone, PartialEq, Eq)]
pub struct InesHeader {
    pub signature: u32,
    /// Number of 16 KiB program banks.
    pub prgsz: u8,
    /// Number of 8 KiB character banks (0 in the file means character RAM).
    pub chrsz: u8,
    /// Vertical (true) or horizontal (false) nametable mirroring.
    pub mirror: bool,
    /// Battery-backed save RAM is present.
    pub battery: bool,
    pub trainer: bool,
    /// The board provides all four nametables itself.
    pub fourscreen: bool,
    pub vs_unisystem: bool,
    pub playchoice10: bool,
    pub version: u8,
    pub mapper: u8,
    pub unused: [u8; 8],
}

/// The little-endian magic word spelling "NES" plus an end-of-file byte.
pub const INES_SIGNATURE: u32 = 0x1a53454e;

/// The magic bytes are present at the front of the image.
pub open spec fn signature_ok(data: Seq<u8>) -> bool {
    data.len() >= 4 && data[0] == 0x4e && data[1] == 0x45 && data[2] == 0x53 && data[3] == 0x1a
}

/// The image is long enough to hold the whole 16-byte header.
pub open spec fn header_len_ok(data: Seq<u8>) -> bool {
    data.len() >= 16
}

/// The header that a well-formed image prefix decodes to.
pub open spec fn spec_header(data: Seq<u8>) -> InesHeader {
    InesHeader {
        signature: INES_SIGNATURE,
        prgsz: data[4],
        chrsz: data[5],
        mirror: data[6] & 0x01 != 0,
        battery: data[6] & 0x02 != 0,
        trainer: data[6] & 0x04 != 0,
        fourscreen: data[6] & 0x08 != 0,
        vs_unisystem: data[7] & 0x01 != 0,
        playchoice10: data[7] & 0x02 != 0,
        version: (data[7] >> 2) & 0x03,
        mapper: (data[6] >> 4) | (data[7] & 0xF0),
        unused: [
            data[8], data[9], data[10], data[11], data[12], data[13], data[14], data[15],
        ],
    }
}

impl InesHeader {
    /// Decode the 16-byte header from the front of `data`.
    ///
    /// Succeeds exactly when the magic bytes match and all 16 header bytes
    /// are present; a bad signature is reported in preference to a short
    /// image, as long as the 4 magic bytes themselves are readable.
    pub fn from_reader(data: &Vec<u8>) -> (r: Result<InesHeader, LoadError>)
        ensures
            r is Ok <==> signature_ok(data@) && header_len_ok(data@),
            r is Ok ==> r->Ok_0 == spec_header(data@),
            r is Err && signature_ok(data@) ==> r->Err_0 == LoadError::TooShort,
            r is Err && !signature_ok(data@) && data@.len() >= 4 ==> r->Err_0
                == LoadError::BadSignature,
            r is Err && data@.len() < 4 ==> r->Err_0 == LoadError::TooShort,
    {
        if data.len() < 4 {
            return Err(LoadError::TooShort);
        }
        if !(data[0] == 0x4e && data[1] == 0x45 && data[2] == 0x53 && data[3] == 0x1a) {
            return Err(LoadError::BadSignature);
        }
        if data.len() < 16 {
            return Err(LoadError::TooShort);
        }
        let flags6 = data[6];
        let flags7 = data[7];
        Ok(InesHeader {
            signature: 0x1a53454e,
            prgsz: data[4],
            chrsz: data[5],
            mirror: flags6 & 0x01 != 0,
            battery: flags6 & 0x02 != 0,
            trainer: flags6 & 0x04 != 0,
            fourscreen: flags6 & 0x08 != 0,
            vs_unisystem: flags7 & 0x01 != 0,
            playchoice10: flags7 & 0x02 != 0,
            version: (flags7 >> 2) & 0x03,
            mapper: (flags6 >> 4) | (flags7 & 0xF0),
            unused: [
                data[8], data[9], data[10], data[11], data[12], data[13], data[14], data[15],
            ],
        })
    }

    /// The 16 bytes this header serializes to.
    pub open spec fn spec_bytes(self) -> Seq<u8> {
        seq![
            (self.signature & 0xFF) as u8,
            ((self.signature >> 8) & 0xFF) as u8,
            ((self.signature >> 16) & 0xFF) as u8,
            ((self.signature >> 24) & 0xFF) as u8,
            self.prgsz,
            self.chrsz,
            ((self.mapper << 4) | if self.mirror { 0x01u8 } else { 0x00u8 } | if self.battery {
                0x02u8
            } else {
                0x00u8
            } | if self.trainer { 0x04u8 } else { 0x00u8 } | if self.fourscreen {
                0x08u8
            } else {
                0x00u8
            }),
            ((self.mapper & 0xF0) | (self.version << 2) | if self.vs_unisystem {
                0x01u8
            } else {
                0x00u8
            } | if self.playchoice10 { 0x02u8 } else { 0x00u8 }),
            self.unused[0], self.unused[1], self.unused[2], self.unused[3],
            self.unused[4], self.unused[5], self.unused[6], self.unused[7],
        ]
    }

    /// Append the 16 header bytes to `out`.
    pub fn write(&self, out: &mut Vec<u8>)
        requires
            old(out)@.len() + 16 <= usize::MAX,
        ensures
            final(out)@ == old(out)@ + self.spec_bytes(),
    {
        let ghost start = out@;
        out.push((self.signature & 0xFF) as u8);
        out.push(((self.signature >> 8) & 0xFF) as u8);
        out.push(((self.signature >> 16) & 0xFF) as u8);
        out.push(((self.signature >> 24) & 0xFF) as u8);
        out.push(self.prgsz);
        out.push(self.chrsz);
        let flags6 = (self.mapper << 4) | if self.mirror { 0x01u8 } else { 0x00u8 } | if self
            .battery {
            0x02u8
        } else {
            0x00u8
        } | if self.trainer { 0x04u8 } else { 0x00u8 } | if self.fourscreen {
            0x08u8
        } else {
            0x00u8
        };
        let flags7 = (self.mapper & 0xF0) | (self.version << 2) | if self.vs_unisystem {
            0x01u8
        } else {
            0x00u8
        } | if self.playchoice10 { 0x02u8 } else { 0x00u8 };
        out.push(flags6);
        out.push(flags7);
        out.push(self.unused[0]);
        out.push(self.unused[1]);
        out.push(self.unused[2]);
        out.push(self.unused[3]);
        out.push(self.unused[4]);
        out.push(self.unused[5]);
        out.push(self.unused[6]);
        out.push(self.unused[7]);
        proof {
            assert(out@ =~= start + self.spec_bytes());
        }
    }
}

/// Copy `len` bytes of `data` starting at `start` into a fresh vector.
fn copy_range(data: &Vec<u8>, start: usize, len: usize) -> (r: Vec<u8>)
    requires
        start + len <= data@.len(),
    ensures
        r@ == data@.subrange(start as int, start + len),
{
    let dlen = data.len();
    let mut r: Vec<u8> = Vec::new();
    let mut i: usize = 0;
    while i < len
        invariant
            i <= len,
            start + len <= dlen == data@.len(),
            r@ == data@.subrange(start as int, start + i),
        decreases len - i,
    {
        r.push(data[start + i]);
        i += 1;
        proof {
            assert(r@ =~= data@.subrange(start as int, start + i));
        }
    }
    r
}

/// A parsed ROM image: the header plus its program and character banks.
#[derive(Debug, Clone)]
pub struct Cartridge {
    pub header: InesHeader,
    pub prg: Vec<u8>,
    pub chr: Vec<u8>,
}

/// Bytes of program data the image must carry.
pub open spec fn prg_bytes(data: Seq<u8>) -> int {
    16384 * data[4]
}

/// Bytes of character data the image carries (none when the board uses
/// character RAM).
pub open spec fn chr_bytes(data: Seq<u8>) -> int {
    8192 * data[5]
}

/// The whole image decodes to a cartridge.
pub open spec fn image_parses(data: Seq<u8>) -> bool {
    &&& signature_ok(data)
    &&& header_len_ok(data)
    &&& data[4] != 0
    &&& data.len() >= 16 + prg_bytes(data) + chr_bytes(data)
}

impl Cartridge {
    /// Sizes recorded in the header match the banks actually held, and at
    /// least one bank of each kind is present.
    pub open spec fn wf(self) -> bool {
        &&& 1 <= self.header.prgsz
        &&& 1 <= self.header.chrsz
        &&& self.prg.len() == 16384 * self.header.prgsz
        &&& self.chr.len() == 8192 * self.header.chrsz
    }

    /// Decode a whole ROM image: header, program banks, then character
    /// banks.  A header announcing zero character banks means the board has
    /// character RAM instead; one zeroed 8 KiB bank is allocated for it.
    /// A header announcing zero program banks is treated as malformed and
    /// rejected here, before anything is built: the processor vectors
    /// would have nothing behind them, and every board needs at least one
    /// bank to switch.
    pub fn from_reader(data: &Vec<u8>) -> (r: Result<Cartridge, LoadError>)
        ensures
            r is Ok <==> image_parses(data@),
            r is Ok ==> {
                &&& r->Ok_0.wf()
                &&& r->Ok_0.header == (InesHeader {
                    chrsz: if data@[5] == 0 { 1u8 } else { data@[5] },
                    ..spec_header(data@)
                })
                &&& r->Ok_0.prg@ == data@.subrange(16, 16 + prg_bytes(data@))
                &&& data@[5] != 0 ==> r->Ok_0.chr@ == data@.subrange(
                    16 + prg_bytes(data@),
                    16 + prg_bytes(data@) + chr_bytes(data@),
                )
                &&& data@[5] == 0 ==> r->Ok_0.chr@ == Seq::<u8>::new(8192, |i: int| 0u8)
            },
            r is Err && signature_ok(data@) && header_len_ok(data@) && data@[4] == 0
                ==> r->Err_0 == LoadError::NoPrgBanks,
            r is Err && !signature_ok(data@) && data@.len() >= 4
                ==> r->Err_0 == LoadError::BadSignature,
            r is Err && signature_ok(data@) && header_len_ok(data@) && data@[4] != 0
                ==> r->Err_0 == LoadError::TooShort,
    {
        let header = match InesHeader::from_reader(data) {
            Ok(h) => h,
            Err(e) => {
                return Err(e);
            },
        };
        if header.prgsz == 0 {
            return Err(LoadError::NoPrgBanks);
        }
        let prg_need: usize = header.prgsz as usize * 16384;
        let chr_need: usize = header.chrsz as usize * 8192;
        if data.len() < 16 + prg_need + chr_need {
            return Err(LoadError::TooShort);
        }
        let prg = copy_range(data, 16, prg_need);
        let (header, chr) = if header.chrsz != 0 {
            (header, copy_range(data, 16 + prg_need, chr_need))
        } else {
            let mut blank: Vec<u8> = Vec::new();
            let mut i: usize = 0;
            while i < 8192
                invariant
                    i <= 8192,
                    blank@ =~= Seq::<u8>::new(i as nat, |j: int| 0u8),
                decreases 8192 - i,
            {
                blank.push(0);
                i += 1;
                proof {
                    assert(blank@ =~= Seq::<u8>::new(i as nat, |j: int| 0u8));
                }
            }
            (InesHeader { chrsz: 1, ..header }, blank)
        };
        Ok(Cartridge { header, prg, chr })
    }

    /// Append the whole image back out: header bytes, program banks,
    /// character banks.
    pub fn write(&self, out: &mut Vec<u8>)
        requires
            old(out)@.len() + 16 + self.prg@.len() + self.chr@.len() <= usize::MAX,
        ensures
            final(out)@ == old(out)@ + self.header.spec_bytes() + self.prg@ + self.chr@,
    {
        self.header.write(out);
        append_bytes(out, &self.prg);
        append_bytes(out, &self.chr);
    }

    /// Nametable address folding for boards without their own mirroring
    /// control: four-screen boards pass the address through, otherwise the
    /// header's mirroring bit picks vertical or horizontal folding.
    pub fn mirror_address(&self, address: u16) -> (r: u16)
        ensures
            r == spec_mirror_cart(self.header.fourscreen, self.header.mirror, address),
            r < 0x1000,
    {
        let a = address & 0xFFF;
        if self.header.fourscreen {
            proof {
                assert((address & 0xFFF) < 0x1000) by (bit_vector);
            }
            a
        } else if self.header.mirror {
            // Vertical mirroring
            proof {
                assert(((address & 0xFFF) & !0x800u16) < 0x1000) by (bit_vector);
            }
            a & !0x800
        } else {
            // Horizontal mirroring
            let a11 = a & 0x800;
            proof {
                assert((((address & 0xFFF) & !0xc00u16) | (((address & 0xFFF) & 0x800) >> 1))
                    < 0x1000) by (bit_vector);
            }
            (a & !0xc00) | (a11 >> 1)
        }
    }
}

/// What `mirror_address` folds a nametable address to.
pub open spec fn spec_mirror_cart(fourscreen: bool, vertical: bool, address: u16) -> u16 {
    let a = address & 0xFFF;
    if fourscreen {
        a
    } else if vertical {
        a & !0x800
    } else {
        (a & !0xc00) | ((a & 0x800) >> 1)
    }
}

/// Append every byte of `src` to `out`.
fn append_bytes(out: &mut Vec<u8>, src: &Vec<u8>)
    requires
        old(out)@.len() + src@.len() <= usize::MAX,
    ensures
        final(out)@ == old(out)@ + src@,
{
    let ghost start = out@;
    let mut i: usize = 0;
    while i < src.len()
        invariant
            i <= src@.len(),
            start.len() + src@.len() <= usize::MAX,
            out@ == start + src@.subrange(0, i as int),
        decreases src@.len() - i,
    {
        out.push(src[i]);
        i += 1;
        proof {
            assert(out@ =~= start + src@.subrange(0, i as int));
        }
    }
    proof {
        assert(out@ =~= start + src@);
    }
}

} // verus!
