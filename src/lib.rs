use vstd::prelude::*;

pub mod decimal;
pub mod fav;
pub mod qrcode;
pub mod session;
pub mod user;
pub mod video;

verus! {

} // verus!
