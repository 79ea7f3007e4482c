//! Reading a cartridge image: what its header says about the controller
//! and the external RAM, and the scan that tells an MBC1 multi-game
//! cartridge from a plain MBC1.

use vstd::prelude::*;
use crate::mask::{
    double_to_cover, doubled_to_cover, is_power_of_two, lemma_doubled_covers,
    lemma_doubled_is_power_of_two, lemma_doubled_reaches_power_of_two, power_of_two,
};
use crate::mbc::MbcKind;

verus! {

/// Header offset of the controller code.
pub const HEADER_MBC_TYPE: usize = 0x0147;

/// Header offset of the RAM size code.
pub const HEADER_RAM_SIZE: usize = 0x0149;

/// First byte of the title in the header.
pub const HEADER_TITLE_START: usize = 0x0134;

/// One past the last byte of the title.
pub const HEADER_TITLE_END: usize = 0x0144;

/// First byte of the global checksum in the header.
pub const HEADER_CHECKSUM_START: usize = 0x014E;

/// One past the last byte of the global checksum.
pub const HEADER_CHECKSUM_END: usize = 0x0150;

/// The shortest image the bus keeps: two 16 KiB banks.
pub const MIN_ROM_SIZE: usize = 0x8000;

/// The shortest controller-less image the bus keeps, so that every address
/// it hands through unchanged indexes the image.
pub const PLAIN_ROM_SIZE: usize = 0x10000;

/// The longest image the loader takes: what can still be padded to a power
/// of two on every word size.
pub const MAX_IMAGE_SIZE: usize = 0x8000_0000;

/// Offset of the last byte of bank 0x10, where the multicart scan starts.
pub const MULTICART_SCAN_TOP: usize = 0x43FFF;

/// Number of bytes the multicart scan consumes: the whole of bank 0x10.
pub const MULTICART_SCAN_STEPS: usize = 0x4000;

/// The logo every cartridge header carries. A multi-game MBC1 cartridge
/// carries it again in bank 0x10, where its second game starts.
pub const NINTENDO_LOGO: [u8; 48] = [
    0xCE, 0xED, 0x66, 0x66, 0xCC, 0x0D, 0x00, 0x0B, 0x03, 0x73, 0x00, 0x83, 0x00, 0x0C, 0x00, 0x0D,
    0x00, 0x08, 0x11, 0x1F, 0x88, 0x89, 0x00, 0x0E, 0xDC, 0xCC, 0x6E, 0xE6, 0xDD, 0xDD, 0xD9, 0x99,
    0xBB, 0xBB, 0x67, 0x63, 0x6E, 0x0E, 0xEC, 0xCC, 0xDD, 0xDC, 0x99, 0x9F, 0xBB, 0xB9, 0x33, 0x3E,
];

/// Why a cartridge image was refused.
#[derive(Clone, Copy, Debug, PartialEq, Eq, Structural)]
pub enum CartridgeError {
    /// The header names a controller this bus does not emulate.
    UnsupportedMbc { code: u8 },
    /// The image is an MBC1 multi-game cartridge, whose bank wiring this
    /// bus does not emulate.
    UnsupportedMulticart,
}

/// An image as the bus keeps it: a power-of-two length of at least 32 KiB.
pub open spec fn valid_rom_image(bytes: Seq<u8>) -> bool {
    bytes.len() >= MIN_ROM_SIZE && bytes.len() <= usize::MAX && is_power_of_two(bytes.len() as usize)
}

/// Bytes of external RAM for a RAM size code.
pub open spec fn sram_size_for(code: u8) -> nat {
    if code == 0x02 {
        0x2000
    } else if code == 0x03 {
        0x8000
    } else if code == 0x04 {
        0x20000
    } else if code == 0x05 {
        0x10000
    } else {
        0
    }
}

/// The controller a controller code names, if it is one this bus knows.
pub open spec fn mbc_kind_for(code: u8) -> Option<MbcKind> {
    if code == 0x00 {
        Some(MbcKind::NoMbc)
    } else if 0x01 <= code <= 0x03 {
        Some(MbcKind::Mbc1)
    } else if 0x0F <= code <= 0x13 {
        Some(MbcKind::Mbc3)
    } else {
        None
    }
}

/// How many trailing logo bytes the scan has matched after consuming `n`
/// bytes, walking down from the top of bank 0x10.
///
/// The scan compares each byte with the logo byte it expects next, from
/// the logo's last byte backwards. A match advances it, a mismatch sends
/// it back to the start of the pattern without looking at that byte again,
/// and 48 is final.
pub open spec fn logo_progress(rom: Seq<u8>, n: nat) -> nat
    decreases n,
{
    if n == 0 {
        0
    } else {
        let matched = logo_progress(rom, (n - 1) as nat);
        if matched >= 48 {
            48
        } else if rom[MULTICART_SCAN_TOP - (n - 1)] == NINTENDO_LOGO@[47 - matched] {
            matched + 1
        } else {
            0
        }
    }
}

/// Whether the scan finds the logo in bank 0x10. An image that does not
/// reach the top of that bank has none.
pub open spec fn multicart_logo_found(rom: Seq<u8>) -> bool {
    rom.len() > MULTICART_SCAN_TOP && logo_progress(rom, MULTICART_SCAN_STEPS as nat) == 48
}

/// The controller of an image: what the header names, with MBC1 told
/// apart from its multi-game variant by the scan. `None` for a controller
/// code this bus does not know.
pub open spec fn detected_kind(rom: Seq<u8>) -> Option<MbcKind> {
    match mbc_kind_for(rom[HEADER_MBC_TYPE as int]) {
        Some(MbcKind::Mbc1) => if multicart_logo_found(rom) {
            Some(MbcKind::Mbc1Multicart)
        } else {
            Some(MbcKind::Mbc1)
        },
        other => other,
    }
}

/// The controller to emulate for an image as the bus keeps it, or the
/// reason the bus does not keep it.
pub open spec fn supported_kind(rom: Seq<u8>) -> Result<MbcKind, CartridgeError> {
    match detected_kind(rom) {
        None => Err(CartridgeError::UnsupportedMbc { code: rom[HEADER_MBC_TYPE as int] }),
        Some(MbcKind::Mbc1Multicart) => Err(CartridgeError::UnsupportedMulticart),
        Some(kind) => Ok(kind),
    }
}

/// `s` cut or zero-extended to `n` bytes.
pub open spec fn resized(s: Seq<u8>, n: nat) -> Seq<u8> {
    if n <= s.len() {
        s.take(n as int)
    } else {
        s + Seq::new((n - s.len()) as nat, |i: int| 0u8)
    }
}

/// The shortest length the bus keeps an image with this controller code
/// at.
pub open spec fn shortest_stored_length(code: u8) -> nat {
    if code == 0x00 {
        PLAIN_ROM_SIZE as nat
    } else {
        MIN_ROM_SIZE as nat
    }
}

/// Whether the bus keeps an image at the length it has: a power of two,
/// not shorter than its controller allows.
pub open spec fn keeps_length(bytes: Seq<u8>) -> bool {
    &&& bytes.len() >= shortest_stored_length(bytes[HEADER_MBC_TYPE as int])
    &&& bytes.len() <= usize::MAX
    &&& is_power_of_two(bytes.len() as usize)
}

/// An image the loader takes. It holds a whole header, and either the bus
/// keeps it at the length it has, or it can be padded: it is not longer
/// than [`MAX_IMAGE_SIZE`].
pub open spec fn loadable_image(bytes: Seq<u8>) -> bool {
    &&& HEADER_RAM_SIZE < bytes.len()
    &&& keeps_length(bytes) || bytes.len() <= MAX_IMAGE_SIZE
}

/// The length the bus keeps an image at: the least power of two that
/// holds the image and is not shorter than its controller allows.
pub open spec fn stored_length(bytes: Seq<u8>) -> nat {
    if keeps_length(bytes) {
        bytes.len()
    } else {
        doubled_to_cover(shortest_stored_length(bytes[HEADER_MBC_TYPE as int]), bytes.len())
    }
}

/// The image as the bus keeps it: verbatim if it has the length the bus
/// keeps it at, zero-padded to that length if it is shorter.
pub open spec fn stored_rom(bytes: Seq<u8>) -> Seq<u8> {
    if keeps_length(bytes) {
        bytes
    } else {
        resized(bytes, stored_length(bytes))
    }
}

/// What the bus keeps of an image the loader takes: an image of
/// power-of-two length that starts with the bytes loaded and is zero from
/// there on, as short as its controller allows. A controller-less image of
/// up to 64 KiB is kept at 64 KiB.
pub proof fn lemma_stored_rom(bytes: Seq<u8>)
    requires
        loadable_image(bytes),
    ensures
        valid_rom_image(stored_rom(bytes)),
        stored_rom(bytes).len() == stored_length(bytes),
        bytes.len() <= MAX_IMAGE_SIZE ==> stored_length(bytes) == doubled_to_cover(
            shortest_stored_length(bytes[HEADER_MBC_TYPE as int]),
            bytes.len(),
        ),
        stored_rom(bytes).len() >= bytes.len(),
        stored_rom(bytes).len() >= shortest_stored_length(bytes[HEADER_MBC_TYPE as int]),
        stored_rom(bytes).len() == shortest_stored_length(bytes[HEADER_MBC_TYPE as int])
            || stored_rom(bytes).len() < 2 * bytes.len(),
        stored_rom(bytes).subrange(0, bytes.len() as int) == bytes,
        forall|i: int| bytes.len() <= i < stored_rom(bytes).len() ==> stored_rom(bytes)[i] == 0,
        bytes[HEADER_MBC_TYPE as int] == 0x00 && bytes.len() <= PLAIN_ROM_SIZE ==> stored_rom(
            bytes,
        ).len() == PLAIN_ROM_SIZE,
{
    let floor: usize = if bytes[HEADER_MBC_TYPE as int] == 0x00 {
        PLAIN_ROM_SIZE
    } else {
        MIN_ROM_SIZE
    };
    assert(is_power_of_two(0x8000usize) && is_power_of_two(0x10000usize)) by (bit_vector);
    if bytes.len() <= MAX_IMAGE_SIZE {
        lemma_doubled_covers(floor as nat, bytes.len());
        lemma_doubled_is_power_of_two(floor, bytes.len() as usize);
        if keeps_length(bytes) {
            lemma_doubled_reaches_power_of_two(floor, bytes.len() as usize);
        }
    }
    assert(stored_rom(bytes).subrange(0, bytes.len() as int) =~= bytes);
}

/// What loading an image yields: the controller its header names, or the
/// reason it is refused. An unknown controller code is refused; an image
/// whose header names an MBC1 is refused if the scan finds it to be a
/// multicart as the bus would keep it.
pub open spec fn load_verdict(bytes: Seq<u8>) -> Result<MbcKind, CartridgeError> {
    match mbc_kind_for(bytes[HEADER_MBC_TYPE as int]) {
        None => Err(CartridgeError::UnsupportedMbc { code: bytes[HEADER_MBC_TYPE as int] }),
        Some(MbcKind::Mbc1) => if multicart_logo_found(stored_rom(bytes)) {
            Err(CartridgeError::UnsupportedMulticart)
        } else {
            Ok(MbcKind::Mbc1)
        },
        Some(kind) => Ok(kind),
    }
}

/// Padding does not change what the header says: the controller and RAM
/// size codes are those of the image loaded, so the verdict on the image
/// loaded is the verdict on the image kept.
pub proof fn lemma_stored_rom_header(bytes: Seq<u8>)
    requires
        loadable_image(bytes),
    ensures
        stored_rom(bytes)[HEADER_MBC_TYPE as int] == bytes[HEADER_MBC_TYPE as int],
        stored_rom(bytes)[HEADER_RAM_SIZE as int] == bytes[HEADER_RAM_SIZE as int],
        supported_kind(stored_rom(bytes)) == load_verdict(bytes),
{
    lemma_stored_rom(bytes);
    assert(stored_rom(bytes).subrange(0, bytes.len() as int)[HEADER_MBC_TYPE as int] == bytes[
        HEADER_MBC_TYPE as int]);
    assert(stored_rom(bytes).subrange(0, bytes.len() as int)[HEADER_RAM_SIZE as int] == bytes[
        HEADER_RAM_SIZE as int]);
}

/// Whether the image holds byte `j` of the logo at offset `at + j`.
pub open spec fn logo_byte_at(rom: Seq<u8>, at: int, j: int) -> bool {
    rom[at + j] == NINTENDO_LOGO@[j]
}

/// Whether the logo stands in the image at offset `at`.
pub open spec fn logo_at(rom: Seq<u8>, at: int) -> bool {
    &&& 0 <= at
    &&& at + 48 <= rom.len()
    &&& forall|j: int| 0 <= j < 48 ==> #[trigger] logo_byte_at(rom, at, j)
}

/// Once the scan has matched the whole logo it stays matched.
pub proof fn lemma_logo_progress_final(rom: Seq<u8>, n: nat, later: nat)
    requires
        logo_progress(rom, n) == 48,
        n <= later,
    ensures
        logo_progress(rom, later) == 48,
    decreases later,
{
    if later > n {
        lemma_logo_progress_final(rom, n, (later - 1) as nat);
    }
}

/// The scan never reports more than the 48 bytes of the logo.
pub proof fn lemma_logo_progress_bound(rom: Seq<u8>, n: nat)
    ensures
        logo_progress(rom, n) <= 48,
        logo_progress(rom, n) <= n,
    decreases n,
{
    if n > 0 {
        lemma_logo_progress_bound(rom, (n - 1) as nat);
    }
}

/// What the scan's count means. Short of 48, the bytes consumed last are
/// the logo's last bytes; at 48, the whole logo stands in bank 0x10 among
/// the bytes consumed.
pub proof fn lemma_logo_progress_sound(rom: Seq<u8>, n: nat)
    requires
        n <= MULTICART_SCAN_STEPS,
        rom.len() > MULTICART_SCAN_TOP,
    ensures
        logo_progress(rom, n) < 48 ==> forall|j: int|
            48 - logo_progress(rom, n) <= j < 48 ==> #[trigger] logo_byte_at(
                rom,
                MULTICART_SCAN_TOP + 1 - n + logo_progress(rom, n) - 48,
                j,
            ),
        logo_progress(rom, n) == 48 ==> exists|at: int|
            MULTICART_SCAN_TOP + 1 - n <= at <= MULTICART_SCAN_TOP - 47 && #[trigger] logo_at(rom, at),
    decreases n,
{
    if n > 0 {
        let before = logo_progress(rom, (n - 1) as nat);
        let matched = logo_progress(rom, n);
        let top = MULTICART_SCAN_TOP + 1 - n;
        lemma_logo_progress_sound(rom, (n - 1) as nat);
        lemma_logo_progress_bound(rom, n);
        if before >= 48 {
            let at = choose|at: int|
                top + 1 <= at <= MULTICART_SCAN_TOP - 47 && #[trigger] logo_at(rom, at);
            assert(top <= at <= MULTICART_SCAN_TOP - 47 && logo_at(rom, at));
        } else if matched > 0 {
            let start = top + matched - 48;
            let start_before = MULTICART_SCAN_TOP + 1 - (n - 1) as nat + before - 48;
            assert(matched == before + 1);
            assert(start_before == start);
            assert(logo_byte_at(rom, start, 48 - matched));
            assert forall|j: int| 48 - matched <= j < 48 implies #[trigger] logo_byte_at(
                rom,
                start,
                j,
            ) by {
                if j > 48 - matched {
                    assert(logo_byte_at(rom, start_before, j));
                }
            }
            if matched == 48 {
                assert(logo_at(rom, top));
            }
        }
    }
}

/// The scan reports a logo only where one is: if it finds the logo, the 48
/// bytes of the logo stand inside bank 0x10 of the image.
pub proof fn lemma_multicart_logo_is_present(rom: Seq<u8>)
    requires
        multicart_logo_found(rom),
    ensures
        exists|at: int| 0x40000 <= at <= 0x43FD0 && #[trigger] logo_at(rom, at),
{
    lemma_logo_progress_sound(rom, MULTICART_SCAN_STEPS as nat);
    let at = choose|at: int|
        MULTICART_SCAN_TOP + 1 - MULTICART_SCAN_STEPS <= at <= MULTICART_SCAN_TOP - 47
            && #[trigger] logo_at(rom, at);
    assert(0x40000 <= at <= 0x43FD0 && logo_at(rom, at));
}

/// Whether `bytes` has a power-of-two length of at least 32 KiB.
pub fn is_valid_rom_image(bytes: &[u8]) -> (ok: bool)
    ensures
        ok == valid_rom_image(bytes@),
{
    bytes.len() >= MIN_ROM_SIZE && power_of_two(bytes.len())
}

/// Whether `bytes` is an image the loader takes.
pub fn is_loadable_image(bytes: &[u8]) -> (ok: bool)
    ensures
        ok == loadable_image(bytes@),
{
    if bytes.len() <= HEADER_RAM_SIZE {
        return false;
    }
    let floor: usize = if bytes[HEADER_MBC_TYPE] == 0x00 {
        PLAIN_ROM_SIZE
    } else {
        MIN_ROM_SIZE
    };
    (bytes.len() >= floor && power_of_two(bytes.len())) || bytes.len() <= MAX_IMAGE_SIZE
}

/// Pads `bytes` with zeros to the length the bus keeps it at.
pub fn pad_image(bytes: &mut Vec<u8>)
    requires
        loadable_image(old(bytes)@),
    ensures
        final(bytes)@ == stored_rom(old(bytes)@),
{
    let floor: usize = if bytes[HEADER_MBC_TYPE] == 0x00 {
        PLAIN_ROM_SIZE
    } else {
        MIN_ROM_SIZE
    };
    if !(bytes.len() >= floor && power_of_two(bytes.len())) {
        assert(is_power_of_two(0x8000usize) && is_power_of_two(0x10000usize)) by (bit_vector);
        let length = double_to_cover(floor, bytes.len());
        bytes.resize(length, 0);
        assert(bytes@ =~= stored_rom(old(bytes)@));
    }
}

/// Bytes of external RAM for a RAM size code.
pub fn sram_size(code: u8) -> (size: usize)
    ensures
        size == sram_size_for(code),
{
    if code == 0x02 {
        0x2000
    } else if code == 0x03 {
        0x8000
    } else if code == 0x04 {
        0x20000
    } else if code == 0x05 {
        0x10000
    } else {
        0
    }
}

/// The controller a controller code names, if it is one this bus knows.
pub fn mbc_kind(code: u8) -> (kind: Option<MbcKind>)
    ensures
        kind == mbc_kind_for(code),
{
    if code == 0x00 {
        Some(MbcKind::NoMbc)
    } else if 0x01 <= code && code <= 0x03 {
        Some(MbcKind::Mbc1)
    } else if 0x0F <= code && code <= 0x13 {
        Some(MbcKind::Mbc3)
    } else {
        None
    }
}

/// Runs the multicart scan over bank 0x10 of `rom`.
pub fn find_multicart_logo(rom: &[u8]) -> (found: bool)
    ensures
        found == multicart_logo_found(rom@),
{
    if rom.len() <= MULTICART_SCAN_TOP {
        return false;
    }
    let mut matched: usize = 0;
    let mut n: usize = 0;
    while n < MULTICART_SCAN_STEPS && matched < 48
        invariant
            n <= MULTICART_SCAN_STEPS,
            rom.len() > MULTICART_SCAN_TOP,
            matched <= 48,
            matched == logo_progress(rom@, n as nat),
        decreases MULTICART_SCAN_STEPS - n,
    {
        if rom[MULTICART_SCAN_TOP - n] == NINTENDO_LOGO[47 - matched] {
            matched = matched + 1;
        } else {
            matched = 0;
        }
        n = n + 1;
    }
    proof {
        if matched == 48 {
            lemma_logo_progress_final(rom@, n as nat, MULTICART_SCAN_STEPS as nat);
        }
    }
    matched == 48
}

/// Decides the controller of an image from its header and the multicart
/// scan.
pub fn detect_kind(rom: &[u8]) -> (kind: Option<MbcKind>)
    requires
        rom@.len() > HEADER_MBC_TYPE,
    ensures
        kind == detected_kind(rom@),
{
    match mbc_kind(rom[HEADER_MBC_TYPE]) {
        Some(MbcKind::Mbc1) => {
            if find_multicart_logo(rom) {
                Some(MbcKind::Mbc1Multicart)
            } else {
                Some(MbcKind::Mbc1)
            }
        },
        other => other,
    }
}

} // verus!
