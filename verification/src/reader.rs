//! Low-level binary reader for the record format's fields: endian-aware
//! primitive decoders over a bounded byte buffer, addressed by a cursor.
//! The `*_or` variants implement the lenient trailing-field policy: once
//! the cursor has reached the buffer's end they yield the caller's default
//! without moving, but a field that starts inside the buffer and runs past
//! its end is an error.

use vstd::prelude::*;
use crate::model::{
    req_u1, req_u2, req_u4, req_i1, req_i2, req_cn, or_u1, or_i1, or_u2, or_i2, or_u4, or_r4,
    or_cn, u2_val, i1_val, utf8_lossy_of,
};

verus! {

/// Decoding error: a field read ran past the end of the supplied buffer.
#[derive(Clone, Copy, Debug, PartialEq, Eq, Structural)]
pub enum StdfError {
    EndOfBuffer,
}

/// Endian-aware field reader.
pub struct StdfReader {
    /// True = little-endian, false = big-endian.
    pub little_endian: bool,
}

/// Relies on `String::from_utf8_lossy` (then `to_string` on the
/// copy-on-write result): well-formed UTF-8 input is returned unchanged,
/// so it decodes to exactly its characters; any other byte sequence
/// decodes to the replacement-character decoding, named `utf8_lossy_of`.
#[verifier::external_body]
fn utf8_lossy(b: &[u8]) -> (r: String)
    ensures
        r@ == utf8_lossy_of(b@),
        vstd::utf8::valid_utf8(b@) ==> r@ == vstd::utf8::decode_utf8(b@),
{
    String::from_utf8_lossy(b).to_string()
}

impl StdfReader {
    pub fn new() -> (r: Self)
        ensures
            r.little_endian,
    {
        Self { little_endian: true }
    }

    /// Read unsigned 1-byte integer.
    pub fn read_u1(&self, data: &[u8], pos: &mut usize) -> (r: Result<u8, StdfError>)
        ensures
            match r {
                Ok(v) => req_u1(data@, *old(pos) as int) == Some((v as int, *final(pos) as int)),
                Err(_) => req_u1(data@, *old(pos) as int) is None && *final(pos) == *old(pos),
            },
    {
        if *pos < data.len() {
            let b = data[*pos];
            *pos = *pos + 1;
            Ok(b)
        } else {
            Err(StdfError::EndOfBuffer)
        }
    }

    /// Read unsigned 2-byte integer (endian-aware).
    pub fn read_u2(&self, data: &[u8], pos: &mut usize) -> (r: Result<u16, StdfError>)
        ensures
            match r {
                Ok(v) => req_u2(data@, *old(pos) as int, self.little_endian) == Some(
                    (v as int, *final(pos) as int),
                ),
                Err(_) => req_u2(data@, *old(pos) as int, self.little_endian) is None && *final(pos) == *old(pos),
            },
    {
        if *pos < data.len() && data.len() - *pos >= 2 {
            let b0 = data[*pos];
            let b1 = data[*pos + 1];
            *pos = *pos + 2;
            Ok(
                if self.little_endian {
                    (b1 as u16) * 0x100 + (b0 as u16)
                } else {
                    (b0 as u16) * 0x100 + (b1 as u16)
                },
            )
        } else {
            Err(StdfError::EndOfBuffer)
        }
    }

    /// Read unsigned 4-byte integer (endian-aware).
    pub fn read_u4(&self, data: &[u8], pos: &mut usize) -> (r: Result<u32, StdfError>)
        ensures
            match r {
                Ok(v) => req_u4(data@, *old(pos) as int, self.little_endian) == Some(
                    (v as int, *final(pos) as int),
                ),
                Err(_) => req_u4(data@, *old(pos) as int, self.little_endian) is None && *final(pos) == *old(pos),
            },
    {
        if *pos < data.len() && data.len() - *pos >= 4 {
            let b0 = data[*pos];
            let b1 = data[*pos + 1];
            let b2 = data[*pos + 2];
            let b3 = data[*pos + 3];
            *pos = *pos + 4;
            Ok(
                if self.little_endian {
                    (b3 as u32) * 0x1000000 + (b2 as u32) * 0x10000 + (b1 as u32) * 0x100 + (
                    b0 as u32)
                } else {
                    (b0 as u32) * 0x1000000 + (b1 as u32) * 0x10000 + (b2 as u32) * 0x100 + (
                    b3 as u32)
                },
            )
        } else {
            Err(StdfError::EndOfBuffer)
        }
    }

    /// Read signed 1-byte integer.
    pub fn read_i1(&self, data: &[u8], pos: &mut usize) -> (r: Result<i8, StdfError>)
        ensures
            match r {
                Ok(v) => req_i1(data@, *old(pos) as int) == Some((v as int, *final(pos) as int)),
                Err(_) => req_i1(data@, *old(pos) as int) is None && *final(pos) == *old(pos),
            },
    {
        if *pos < data.len() {
            let b = data[*pos];
            *pos = *pos + 1;
            assert(b as i8 as int == i1_val(b)) by (bit_vector);
            Ok(b as i8)
        } else {
            Err(StdfError::EndOfBuffer)
        }
    }

    /// Read signed 2-byte integer (endian-aware).
    pub fn read_i2(&self, data: &[u8], pos: &mut usize) -> (r: Result<i16, StdfError>)
        ensures
            match r {
                Ok(v) => req_i2(data@, *old(pos) as int, self.little_endian) == Some(
                    (v as int, *final(pos) as int),
                ),
                Err(_) => req_i2(data@, *old(pos) as int, self.little_endian) is None && *final(pos) == *old(pos),
            },
    {
        match self.read_u2(data, pos) {
            Ok(u) => {
                assert(u as i16 as int == if u >= 0x8000 {
                    u - 0x10000
                } else {
                    u as int
                }) by (bit_vector);
                Ok(u as i16)
            },
            Err(e) => Err(e),
        }
    }

    /// Read a character string: one length byte followed by that many bytes,
    /// decoded permissively.
    pub fn read_cn(&self, data: &[u8], pos: &mut usize) -> (r: Result<String, StdfError>)
        ensures
            match r {
                Ok(s) => req_cn(data@, *old(pos) as int) == Some((s@, *final(pos) as int)),
                Err(_) => req_cn(data@, *old(pos) as int) is None && *final(pos) == *old(pos),
            },
    {
        if *pos >= data.len() {
            return Err(StdfError::EndOfBuffer);
        }
        let n = data[*pos] as usize;
        if data.len() - (*pos + 1) < n {
            return Err(StdfError::EndOfBuffer);
        }
        let s = utf8_lossy(&data[*pos + 1..*pos + 1 + n]);
        *pos = *pos + 1 + n;
        Ok(s)
    }

    /// Read record header: (rec_len, rec_typ, rec_sub).
    pub fn read_header(&self, data: &[u8], pos: &mut usize) -> (r: Result<
        (u16, u8, u8),
        StdfError,
    >)
        ensures
            match r {
                Ok(h) => *old(pos) + 4 <= data@.len() && *final(pos) == *old(pos) + 4 && h.0
                    as int == u2_val(
                    data@[*old(pos) as int],
                    data@[*old(pos) as int + 1],
                    self.little_endian,
                ) && h.1 == data@[*old(pos) as int + 2] && h.2 == data@[*old(pos) as int + 3],
                Err(_) => *old(pos) + 4 > data@.len() && *final(pos) == *old(pos),
            },
    {
        if *pos < data.len() && data.len() - *pos >= 4 {
            let b0 = data[*pos];
            let b1 = data[*pos + 1];
            let typ = data[*pos + 2];
            let sub = data[*pos + 3];
            *pos = *pos + 4;
            let rec_len: u16 = if self.little_endian {
                (b1 as u16) * 0x100 + (b0 as u16)
            } else {
                (b0 as u16) * 0x100 + (b1 as u16)
            };
            Ok((rec_len, typ, sub))
        } else {
            Err(StdfError::EndOfBuffer)
        }
    }

    /// Skip `n` bytes.
    pub fn skip(&self, data: &[u8], pos: &mut usize, n: usize) -> (r: Result<(), StdfError>)
        ensures
            match r {
                Ok(_) => *old(pos) + n <= data@.len() && *final(pos) == *old(pos) + n,
                Err(_) => *old(pos) + n > data@.len() && *final(pos) == *old(pos),
            },
    {
        if *pos <= data.len() && data.len() - *pos >= n {
            *pos = *pos + n;
            Ok(())
        } else {
            Err(StdfError::EndOfBuffer)
        }
    }

    /// Read unsigned 1-byte integer, or the default past the buffer's end.
    pub fn read_u1_or(&self, data: &[u8], pos: &mut usize, dflt: u8) -> (r: u8)
        ensures
            or_u1(data@, *old(pos) as int, dflt as int) == (r as int, *final(pos) as int),
    {
        if *pos >= data.len() {
            dflt
        } else {
            let b = data[*pos];
            *pos = *pos + 1;
            b
        }
    }

    /// Read signed 1-byte integer, or the default past the buffer's end.
    pub fn read_i1_or(&self, data: &[u8], pos: &mut usize, dflt: i8) -> (r: i8)
        ensures
            or_i1(data@, *old(pos) as int, dflt as int) == (r as int, *final(pos) as int),
    {
        if *pos >= data.len() {
            dflt
        } else {
            let b = data[*pos];
            *pos = *pos + 1;
            assert(b as i8 as int == i1_val(b)) by (bit_vector);
            b as i8
        }
    }

    /// Read unsigned 2-byte integer, or the default past the buffer's end.
    pub fn read_u2_or(&self, data: &[u8], pos: &mut usize, dflt: u16) -> (r: Result<
        u16,
        StdfError,
    >)
        ensures
            match r {
                Ok(v) => or_u2(data@, *old(pos) as int, self.little_endian, dflt as int) == Some(
                    (v as int, *final(pos) as int),
                ),
                Err(_) => or_u2(data@, *old(pos) as int, self.little_endian, dflt as int) is None && *final(pos) == *old(pos),
            },
    {
        if *pos >= data.len() {
            Ok(dflt)
        } else {
            self.read_u2(data, pos)
        }
    }

    /// Read signed 2-byte integer, or the default past the buffer's end.
    pub fn read_i2_or(&self, data: &[u8], pos: &mut usize, dflt: i16) -> (r: Result<
        i16,
        StdfError,
    >)
        ensures
            match r {
                Ok(v) => or_i2(data@, *old(pos) as int, self.little_endian, dflt as int) == Some(
                    (v as int, *final(pos) as int),
                ),
                Err(_) => or_i2(data@, *old(pos) as int, self.little_endian, dflt as int) is None && *final(pos) == *old(pos),
            },
    {
        if *pos >= data.len() {
            Ok(dflt)
        } else {
            self.read_i2(data, pos)
        }
    }

    /// Read unsigned 4-byte integer, or the default past the buffer's end.
    pub fn read_u4_or(&self, data: &[u8], pos: &mut usize, dflt: u32) -> (r: Result<
        u32,
        StdfError,
    >)
        ensures
            match r {
                Ok(v) => or_u4(data@, *old(pos) as int, self.little_endian, dflt as int) == Some(
                    (v as int, *final(pos) as int),
                ),
                Err(_) => or_u4(data@, *old(pos) as int, self.little_endian, dflt as int) is None && *final(pos) == *old(pos),
            },
    {
        if *pos >= data.len() {
            Ok(dflt)
        } else {
            self.read_u4(data, pos)
        }
    }

    /// Read the bit pattern of a four-byte real, or `None` (the not-a-number
    /// default) past the buffer's end.
    pub fn read_r4_bits_or(&self, data: &[u8], pos: &mut usize) -> (r: Result<
        Option<u32>,
        StdfError,
    >)
        ensures
            match r {
                Ok(v) => or_r4(data@, *old(pos) as int, self.little_endian) == Some(
                    (v, *final(pos) as int),
                ),
                Err(_) => or_r4(data@, *old(pos) as int, self.little_endian) is None && *final(pos) == *old(pos),
            },
    {
        if *pos >= data.len() {
            Ok(None)
        } else {
            match self.read_u4(data, pos) {
                Ok(v) => Ok(Some(v)),
                Err(e) => Err(e),
            }
        }
    }

    /// Read a character string, or the empty string past the buffer's end.
    pub fn read_cn_or(&self, data: &[u8], pos: &mut usize) -> (r: Result<String, StdfError>)
        ensures
            match r {
                Ok(s) => or_cn(data@, *old(pos) as int) == Some((s@, *final(pos) as int)),
                Err(_) => or_cn(data@, *old(pos) as int) is None && *final(pos) == *old(pos),
            },
    {
        if *pos >= data.len() {
            Ok(String::new())
        } else {
            self.read_cn(data, pos)
        }
    }
}

} // verus!
