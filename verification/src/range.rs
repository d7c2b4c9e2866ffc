//! An inclusive range of numbers written `n` (from `n` on) or `n-m`.
use vstd::prelude::*;
use crate::error::MuxError;
use crate::strs::{parse_usize, parse_usize_chars, split_once, split_once_chars};

verus! {

/// An inclusive range `start..=end` of `usize`.
#[derive(Clone, Copy, Debug, PartialEq, Eq, Structural)]
pub struct RangeUsize {
    pub start: usize,
    pub end: usize,
}

/// The range written in `s`: `n` for `n..=usize::MAX`, `n-` likewise, and
/// `n-m` for `n..=m` with `n <= m`.
pub open spec fn parse_range(s: Seq<char>) -> Option<(nat, nat)> {
    match split_once(s, '-') {
        None => match parse_usize(s) {
            Some(n) => Some((n, usize::MAX as nat)),
            None => None,
        },
        Some((a, b)) => match parse_usize(a) {
            None => None,
            Some(n) => if b.len() == 0 {
                Some((n, usize::MAX as nat))
            } else {
                match parse_usize(b) {
                    Some(m) => if n <= m {
                        Some((n, m))
                    } else {
                        None
                    },
                    None => None,
                }
            },
        },
    }
}

impl RangeUsize {
    /// `true` if `x` lies in the range.
    pub fn contains(&self, x: usize) -> (r: bool)
        ensures
            r == (self.start <= x <= self.end),
    {
        self.start <= x && x <= self.end
    }

    /// Parses a range from its characters.
    pub fn parse_chars(s: &[char]) -> (r: Option<RangeUsize>)
        ensures
            r is Some <==> parse_range(s@) is Some,
            r matches Some(rg) ==> parse_range(s@) == Some((rg.start as nat, rg.end as nat)),
    {
        match split_once_chars(s, '-') {
            None => match parse_usize_chars(s) {
                Some(n) => Some(RangeUsize { start: n, end: usize::MAX }),
                None => None,
            },
            Some((a, b)) => match parse_usize_chars(a.as_slice()) {
                None => None,
                Some(n) => if b.len() == 0 {
                    Some(RangeUsize { start: n, end: usize::MAX })
                } else {
                    match parse_usize_chars(b.as_slice()) {
                        Some(m) => if n <= m {
                            Some(RangeUsize { start: n, end: m })
                        } else {
                            None
                        },
                        None => None,
                    }
                },
            },
        }
    }

    /// Parses a range from a string.
    ///
    /// # Errors
    ///
    /// When `s` is not `n`, `n-` or `n-m` with `n <= m`.
    pub fn from_str(s: &str) -> (r: Result<RangeUsize, MuxError>)
        ensures
            r is Ok <==> parse_range(s@) is Some,
            r matches Ok(rg) ==> parse_range(s@) == Some((rg.start as nat, rg.end as nat)),
            r matches Err(e) ==> e.has_message("Invalid range: must be n[-m]"@),
    {
        let cs = crate::text::chars_of(s);
        match RangeUsize::parse_chars(cs.as_slice()) {
            Some(r) => Ok(r),
            None => Err(MuxError::from_str_msg("Invalid range: must be n[-m]")),
        }
    }
}

} // verus!
