//! Character classes as values, so that a rejection can name the class that
//! the unit at its position failed.

use vstd::prelude::*;

use crate::{
    alpha_code, bit_code, char_code, cr_code, ctl_code, digit_code, dquote_code, hexdig_code,
    htab_code, is_alpha, is_bit, is_char, is_cr, is_ctl, is_digit, is_dquote, is_hexdig, is_htab,
    is_lf, is_sp, is_tchar, is_vchar, is_wsp, lf_code, octet_code, sp_code, tchar_code,
    vchar_code, wsp_code, Unit,
};

verus! {

/// One of the character classes of the core rules.
#[derive(Clone, Copy, Debug, PartialEq, Eq, Structural)]
pub enum Class {
    Alpha,
    Bit,
    Char,
    Cr,
    Ctl,
    Digit,
    Dquote,
    Hexdig,
    Htab,
    Lf,
    Octet,
    Sp,
    Vchar,
    Wsp,
    Tchar,
}

impl Class {
    /// Whether the code point `c` belongs to this class.
    pub open spec fn holds(self, c: u32) -> bool {
        match self {
            Class::Alpha => alpha_code(c),
            Class::Bit => bit_code(c),
            Class::Char => char_code(c),
            Class::Cr => cr_code(c),
            Class::Ctl => ctl_code(c),
            Class::Digit => digit_code(c),
            Class::Dquote => dquote_code(c),
            Class::Hexdig => hexdig_code(c),
            Class::Htab => htab_code(c),
            Class::Lf => lf_code(c),
            Class::Octet => octet_code(c),
            Class::Sp => sp_code(c),
            Class::Vchar => vchar_code(c),
            Class::Wsp => wsp_code(c),
            Class::Tchar => tchar_code(c),
        }
    }

    /// Whether the unit `u` belongs to this class.
    pub open spec fn admits<U: Unit>(self, u: U) -> bool {
        self.holds(u.code_point())
    }

    /// Classifies `u`: the answer depends on the class and the unit's code
    /// point alone.
    pub fn test<U: Unit>(&self, u: U) -> (r: bool)
        ensures
            r == self.admits(u),
    {
        match self {
            Class::Alpha => is_alpha(u),
            Class::Bit => is_bit(u),
            Class::Char => is_char(u),
            Class::Cr => is_cr(u),
            Class::Ctl => is_ctl(u),
            Class::Digit => is_digit(u),
            Class::Dquote => is_dquote(u),
            Class::Hexdig => is_hexdig(u),
            Class::Htab => is_htab(u),
            Class::Lf => is_lf(u),
            Class::Octet => u.code() <= 0xFF,
            Class::Sp => is_sp(u),
            Class::Vchar => is_vchar(u),
            Class::Wsp => is_wsp(u),
            Class::Tchar => is_tchar(u),
        }
    }
}

} // verus!
