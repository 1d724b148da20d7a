//! Tile addressing for the OpenFreeMap vector tiles.

use vstd::prelude::*;

use crate::text::{decimal, decimal_string, replace_all, replace_all_str};

verus! {

/// The tile template with its `{z}`, `{x}` and `{y}` placeholders replaced
/// by the decimal tile coordinates, in that order.
pub open spec fn filled_template(t: Seq<char>, z: nat, x: nat, y: nat) -> Seq<char> {
    replace_all(
        replace_all(replace_all(t, "{z}"@, decimal(z)), "{x}"@, decimal(x)),
        "{y}"@,
        decimal(y),
    )
}

/// The URL of vector tile `z/x/y` from the TileJSON tile template.
pub fn fill_tile_template(template: &str, z: u8, x: u32, y: u32) -> (r: String)
    ensures
        r@ == filled_template(template@, z as nat, x as nat, y as nat),
{
    proof {
        reveal_strlit("{z}");
        reveal_strlit("{x}");
        reveal_strlit("{y}");
    }
    let zs = decimal_string(z as u64);
    let xs = decimal_string(x as u64);
    let ys = decimal_string(y as u64);
    let a = replace_all_str(template, "{z}", zs.as_str());
    let b = replace_all_str(a.as_str(), "{x}", xs.as_str());
    replace_all_str(b.as_str(), "{y}", ys.as_str())
}

} // verus!
