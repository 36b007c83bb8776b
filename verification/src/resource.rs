//! Installed titles and the media they live on.

use vstd::prelude::*;
use vstd::slice::slice_subrange;
use vstd::string::StringExecFns;

verus! {

/// The storage medium a title is installed on.
#[derive(Clone, Copy, PartialEq, Eq, Structural, Debug)]
pub enum MediaType {
    /// Internal memory.
    Nand,
    /// The SD card.
    Sd,
    /// A game card in the slot.
    GameCard,
}

impl MediaType {
    /// The number the system uses for this medium.
    pub open spec fn code(self) -> u8 {
        match self {
            MediaType::Nand => 0,
            MediaType::Sd => 1,
            MediaType::GameCard => 2,
        }
    }

    /// The number the system uses for this medium: 0 for internal memory,
    /// 1 for the SD card, 2 for a game card.
    pub fn as_u8(self) -> (code: u8)
        ensures
            code == self.code(),
    {
        match self {
            MediaType::Nand => 0,
            MediaType::Sd => 1,
            MediaType::GameCard => 2,
        }
    }
}

/// An installed title.
#[derive(Clone, Copy, PartialEq, Eq, Structural, Debug)]
pub struct TitleInfo {
    /// The title id.
    pub id: u64,
    /// Where the title is installed.
    pub fs_media_type: MediaType,
}

/// The upper-case hexadecimal digit for a value below sixteen.
pub open spec fn hex_digit(v: int) -> char {
    if v == 0 {
        '0'
    } else if v == 1 {
        '1'
    } else if v == 2 {
        '2'
    } else if v == 3 {
        '3'
    } else if v == 4 {
        '4'
    } else if v == 5 {
        '5'
    } else if v == 6 {
        '6'
    } else if v == 7 {
        '7'
    } else if v == 8 {
        '8'
    } else if v == 9 {
        '9'
    } else if v == 10 {
        'A'
    } else if v == 11 {
        'B'
    } else if v == 12 {
        'C'
    } else if v == 13 {
        'D'
    } else if v == 14 {
        'E'
    } else {
        'F'
    }
}

/// The upper-case hexadecimal digits of a number, most significant first,
/// without leading zeros; zero is the single digit `0`.
pub open spec fn hex_digits(n: nat) -> Seq<char>
    decreases n,
{
    if n < 16 {
        seq![hex_digit(n as int)]
    } else {
        hex_digits(n / 16).push(hex_digit((n % 16) as int))
    }
}

/// The kind of title that the upper half of a title id names.
pub open spec fn category_of(high_id: u32) -> Seq<char> {
    if high_id == 0x00040000 {
        "App"@
    } else if high_id == 0x00040002 {
        "Demo"@
    } else if high_id == 0x00040010 {
        "System App"@
    } else {
        "Unknown"@
    }
}

/// Whether the lower half of a system title id names one of the system
/// titles that hold nothing worth backing up: system transfer, manuals,
/// browser, updater, shop, card manager, health information, account
/// settings, download play and notifications.
pub open spec fn is_plain_system_title(low_id: u32) -> bool {
    ||| low_id == 0x00020A00 || low_id == 0x00021A00 || low_id == 0x00022A00 || low_id
        == 0x00027A00 || low_id == 0x00028A00
    ||| low_id == 0x00008602 || low_id == 0x00009202 || low_id == 0x00009B02 || low_id
        == 0x0000A402 || low_id == 0x0000AC02 || low_id == 0x0000B402
    ||| low_id == 0x00008802 || low_id == 0x00009402 || low_id == 0x00009D02 || low_id
        == 0x0000A602 || low_id == 0x0000AE02 || low_id == 0x0000B602 || low_id == 0x20008802
        || low_id == 0x20009402 || low_id == 0x20009D02 || low_id == 0x2000AE02
    ||| low_id == 0x00020F00 || low_id == 0x00021F00 || low_id == 0x00022F00 || low_id
        == 0x00026F00 || low_id == 0x00027F00 || low_id == 0x00028F00
    ||| low_id == 0x00020900 || low_id == 0x00021900 || low_id == 0x00022900 || low_id
        == 0x00027900 || low_id == 0x00028900
    ||| low_id == 0x20023100 || low_id == 0x20024100 || low_id == 0x20025100
    ||| low_id == 0x20020300 || low_id == 0x20021300 || low_id == 0x20022300 || low_id
        == 0x20027300
    ||| low_id == 0x0002BF00 || low_id == 0x0002C000 || low_id == 0x0002C100
    ||| low_id == 0x00020100 || low_id == 0x00021100 || low_id == 0x00022100 || low_id
        == 0x00026100 || low_id == 0x00027100 || low_id == 0x00028100
    ||| low_id == 0x2002CA00 || low_id == 0x0002D300 || low_id == 0x2002D400
}

/// Whether a title id names a title that is listed: an application, a
/// demo, or a system application other than the plain system titles.
pub open spec fn is_application_spec(id: u64) -> bool {
    let high_id = (id >> 32) as u32;
    if high_id == 0x00040000 || high_id == 0x00040002 {
        true
    } else if high_id == 0x00040010 {
        !is_plain_system_title(id as u32)
    } else {
        false
    }
}

fn digit_char(v: u64) -> (c: char)
    requires
        v < 16,
    ensures
        c == hex_digit(v as int),
{
    if v == 0 {
        '0'
    } else if v == 1 {
        '1'
    } else if v == 2 {
        '2'
    } else if v == 3 {
        '3'
    } else if v == 4 {
        '4'
    } else if v == 5 {
        '5'
    } else if v == 6 {
        '6'
    } else if v == 7 {
        '7'
    } else if v == 8 {
        '8'
    } else if v == 9 {
        '9'
    } else if v == 10 {
        'A'
    } else if v == 11 {
        'B'
    } else if v == 12 {
        'C'
    } else if v == 13 {
        'D'
    } else if v == 14 {
        'E'
    } else {
        'F'
    }
}

proof fn lemma_nibbles(id: u64, shift: u64)
    requires
        4 <= shift < 64,
    ensures
        (id >> ((shift - 4) as u64)) / 16 == id >> shift,
        (id >> ((shift - 4) as u64)) % 16 == (id >> ((shift - 4) as u64)) & 15,
        (id >> ((shift - 4) as u64)) & 15 < 16,
{
    let lower = (shift - 4) as u64;
    assert((id >> lower) / 16 == id >> shift && (id >> lower) % 16 == (id >> lower) & 15 && (id
        >> lower) & 15 < 16) by (bit_vector)
        requires
            4 <= shift < 64,
            lower == shift - 4,
    ;
}

impl TitleInfo {
    /// A title on a medium.
    pub fn new(id: u64, fs_media_type: MediaType) -> (title: TitleInfo)
        ensures
            title == (TitleInfo { id, fs_media_type }),
    {
        TitleInfo { id, fs_media_type }
    }

    /// The medium's name as image keys use it: `"sd"` for the SD card and
    /// `"nand"` for anything else.
    pub fn media_str(&self) -> (name: &'static str)
        ensures
            name@ == if self.fs_media_type == MediaType::Sd {
                "sd"@
            } else {
                "nand"@
            },
    {
        match self.fs_media_type {
            MediaType::Sd => "sd",
            _ => "nand",
        }
    }

    /// The upper half of the title id.
    pub fn high_id(&self) -> (high: u32)
        ensures
            high == (self.id >> 32) as u32,
    {
        #[verifier::truncate]
        ((self.id >> 32) as u32)
    }

    /// The lower half of the title id.
    pub fn low_id(&self) -> (low: u32)
        ensures
            low == self.id as u32,
    {
        #[verifier::truncate]
        (self.id as u32)
    }

    /// The title id as text: `0x` and its upper-case hexadecimal digits.
    pub fn id_hex_str(&self) -> (text: String)
        ensures
            text@ == "0x"@ + hex_digits(self.id as nat),
    {
        let id = self.id;
        let mut shift: u64 = 60;
        while shift > 0 && (id >> shift) == 0
            invariant
                shift <= 60,
                shift % 4 == 0,
                shift < 60 ==> id >> ((shift + 4) as u64) == 0,
            decreases shift,
        {
            shift -= 4;
        }
        assert((id >> shift) < 16) by (bit_vector)
            requires
                shift <= 60,
                shift < 60 ==> id >> ((shift + 4) as u64) == 0,
        ;
        let mut text = String::from_str("0x");
        text.push(digit_char(id >> shift));
        while shift > 0
            invariant
                shift <= 60,
                shift % 4 == 0,
                shift > 0 ==> (id >> shift) != 0,
                text@ == "0x"@ + hex_digits((id >> shift) as nat),
            decreases shift,
        {
            proof {
                lemma_nibbles(id, shift);
            }
            let ghost upper = (id >> shift) as nat;
            shift -= 4;
            let ghost current = (id >> shift) as nat;
            text.push(digit_char((id >> shift) & 15));
            proof {
                assert(current / 16 == upper);
                assert(current >= 16);
                assert(hex_digits(current) == hex_digits(upper).push(
                    hex_digit((current % 16) as int),
                ));
            }
            assert(text@ =~= "0x"@ + hex_digits(current));
        }
        assert(id >> 0 == id) by (bit_vector);
        text
    }

    /// The kind of title: `App`, `Demo`, `System App` or `Unknown`.
    pub fn category(&self) -> (name: &'static str)
        ensures
            name@ == category_of((self.id >> 32) as u32),
    {
        let high = self.high_id();
        if high == 0x00040000 {
            "App"
        } else if high == 0x00040002 {
            "Demo"
        } else if high == 0x00040010 {
            "System App"
        } else {
            "Unknown"
        }
    }

    /// Whether a title id names a title that is listed.
    pub fn is_application(id: u64) -> (listed: bool)
        ensures
            listed == is_application_spec(id),
    {
        let high_id: u32 = #[verifier::truncate] ((id >> 32) as u32);
        let low_id: u32 = #[verifier::truncate] (id as u32);
        if high_id == 0x00040000 || high_id == 0x00040002 {
            true
        } else if high_id == 0x00040010 {
            !(low_id == 0x00020A00 || low_id == 0x00021A00 || low_id == 0x00022A00 || low_id
                == 0x00027A00 || low_id == 0x00028A00 || low_id == 0x00008602 || low_id
                == 0x00009202 || low_id == 0x00009B02 || low_id == 0x0000A402 || low_id
                == 0x0000AC02 || low_id == 0x0000B402 || low_id == 0x00008802 || low_id
                == 0x00009402 || low_id == 0x00009D02 || low_id == 0x0000A602 || low_id
                == 0x0000AE02 || low_id == 0x0000B602 || low_id == 0x20008802 || low_id
                == 0x20009402 || low_id == 0x20009D02 || low_id == 0x2000AE02 || low_id
                == 0x00020F00 || low_id == 0x00021F00 || low_id == 0x00022F00 || low_id
                == 0x00026F00 || low_id == 0x00027F00 || low_id == 0x00028F00 || low_id
                == 0x00020900 || low_id == 0x00021900 || low_id == 0x00022900 || low_id
                == 0x00027900 || low_id == 0x00028900 || low_id == 0x20023100 || low_id
                == 0x20024100 || low_id == 0x20025100 || low_id == 0x20020300 || low_id
                == 0x20021300 || low_id == 0x20022300 || low_id == 0x20027300 || low_id
                == 0x0002BF00 || low_id == 0x0002C000 || low_id == 0x0002C100 || low_id
                == 0x00020100 || low_id == 0x00021100 || low_id == 0x00022100 || low_id
                == 0x00026100 || low_id == 0x00027100 || low_id == 0x00028100 || low_id
                == 0x2002CA00 || low_id == 0x0002D300 || low_id == 0x2002D400)
        } else {
            false
        }
    }

    /// Cuts a product code buffer before its first zero byte.
    pub fn product_code(buf: &[u8]) -> (code: &[u8])
        ensures
            code@ == buf@.take(code@.len() as int),
            forall|i: int| 0 <= i < code@.len() ==> code@[i] != 0,
            code@.len() < buf@.len() ==> buf@[code@.len() as int] == 0,
    {
        let mut i: usize = 0;
        while i < buf.len()
            invariant
                i <= buf.len(),
                forall|j: int| 0 <= j < i ==> buf@[j] != 0,
            decreases buf.len() - i,
        {
            if buf[i] == 0 {
                let code = slice_subrange(buf, 0, i);
                assert(code@ =~= buf@.take(i as int));
                return code;
            }
            i += 1;
        }
        assert(buf@ =~= buf@.take(buf@.len() as int));
        buf
    }
}

} // verus!
