//! The territory that a disc was made for.

use vstd::prelude::*;
use crate::error::{view_result, Fault, ImageError};

verus! {

/// The territory of a disc, which decides how the banner's text is encoded.
#[derive(Debug, Copy, Clone, PartialEq, Eq, Structural)]
pub enum Region {
    USA,
    EUR,
    JPN,
    FRA,
}

impl View for Region {
    type V = Region;

    open spec fn view(&self) -> Region {
        *self
    }
}

/// The region that a byte of the game code stands for: `E` is USA, `P` is
/// EUR, `J` is JPN, `F` is FRA. Any other byte stands for none, and the fault
/// carries it.
pub open spec fn spec_region(byte: u8) -> Result<Region, Fault> {
    if byte == 'E' as u8 {
        Ok(Region::USA)
    } else if byte == 'P' as u8 {
        Ok(Region::EUR)
    } else if byte == 'J' as u8 {
        Ok(Region::JPN)
    } else if byte == 'F' as u8 {
        Ok(Region::FRA)
    } else {
        Err(Fault::InvalidRegion { byte })
    }
}

impl Region {
    /// Tells the region from the fourth byte of the game code.
    pub fn from_byte(byte: u8) -> (r: Result<Region, ImageError>)
        ensures
            view_result(r) == spec_region(byte),
    {
        match byte {
            0x45 => Ok(Region::USA),
            0x4A => Ok(Region::JPN),
            0x50 => Ok(Region::EUR),
            0x46 => Ok(Region::FRA),
            _ => Err(ImageError::InvalidRegion { byte }),
        }
    }
}

} // verus!
