use vstd::prelude::*;

pub mod part_a;
pub mod part_b;
pub mod part_c;
pub mod part_d;
pub mod part_e;
pub mod part_f;
pub mod part_g;
pub mod part_h;
pub mod part_i;

verus! {

/// The number of named character references.
pub const ENTITY_COUNT: usize = 2231;

/// The name of the named character reference number `index`, without the `&`. The names
/// stand in the order of their characters' code points. Most end in `;`; some old ones
/// exist without it as well.
pub open spec fn entity_name(index: int) -> Seq<char> {
    if index < 64 {
        part_a::names_0(index)
    } else if index < 128 {
        part_a::names_64(index)
    } else if index < 192 {
        part_a::names_128(index)
    } else if index < 256 {
        part_a::names_192(index)
    } else if index < 320 {
        part_b::names_256(index)
    } else if index < 384 {
        part_b::names_320(index)
    } else if index < 448 {
        part_b::names_384(index)
    } else if index < 512 {
        part_b::names_448(index)
    } else if index < 576 {
        part_c::names_512(index)
    } else if index < 640 {
        part_c::names_576(index)
    } else if index < 704 {
        part_c::names_640(index)
    } else if index < 768 {
        part_c::names_704(index)
    } else if index < 832 {
        part_d::names_768(index)
    } else if index < 896 {
        part_d::names_832(index)
    } else if index < 960 {
        part_d::names_896(index)
    } else if index < 1024 {
        part_d::names_960(index)
    } else if index < 1088 {
        part_e::names_1024(index)
    } else if index < 1152 {
        part_e::names_1088(index)
    } else if index < 1216 {
        part_e::names_1152(index)
    } else if index < 1280 {
        part_e::names_1216(index)
    } else if index < 1344 {
        part_f::names_1280(index)
    } else if index < 1408 {
        part_f::names_1344(index)
    } else if index < 1472 {
        part_f::names_1408(index)
    } else if index < 1536 {
        part_f::names_1472(index)
    } else if index < 1600 {
        part_g::names_1536(index)
    } else if index < 1664 {
        part_g::names_1600(index)
    } else if index < 1728 {
        part_g::names_1664(index)
    } else if index < 1792 {
        part_g::names_1728(index)
    } else if index < 1856 {
        part_h::names_1792(index)
    } else if index < 1920 {
        part_h::names_1856(index)
    } else if index < 1984 {
        part_h::names_1920(index)
    } else if index < 2048 {
        part_h::names_1984(index)
    } else if index < 2112 {
        part_i::names_2048(index)
    } else if index < 2176 {
        part_i::names_2112(index)
    } else {
        part_i::names_2176(index)
    }
}

/// The one or two characters that the named character reference number `index` stands
/// for.
pub open spec fn entity_text(index: int) -> Seq<char> {
    if index < 64 {
        part_a::texts_0(index)
    } else if index < 128 {
        part_a::texts_64(index)
    } else if index < 192 {
        part_a::texts_128(index)
    } else if index < 256 {
        part_a::texts_192(index)
    } else if index < 320 {
        part_b::texts_256(index)
    } else if index < 384 {
        part_b::texts_320(index)
    } else if index < 448 {
        part_b::texts_384(index)
    } else if index < 512 {
        part_b::texts_448(index)
    } else if index < 576 {
        part_c::texts_512(index)
    } else if index < 640 {
        part_c::texts_576(index)
    } else if index < 704 {
        part_c::texts_640(index)
    } else if index < 768 {
        part_c::texts_704(index)
    } else if index < 832 {
        part_d::texts_768(index)
    } else if index < 896 {
        part_d::texts_832(index)
    } else if index < 960 {
        part_d::texts_896(index)
    } else if index < 1024 {
        part_d::texts_960(index)
    } else if index < 1088 {
        part_e::texts_1024(index)
    } else if index < 1152 {
        part_e::texts_1088(index)
    } else if index < 1216 {
        part_e::texts_1152(index)
    } else if index < 1280 {
        part_e::texts_1216(index)
    } else if index < 1344 {
        part_f::texts_1280(index)
    } else if index < 1408 {
        part_f::texts_1344(index)
    } else if index < 1472 {
        part_f::texts_1408(index)
    } else if index < 1536 {
        part_f::texts_1472(index)
    } else if index < 1600 {
        part_g::texts_1536(index)
    } else if index < 1664 {
        part_g::texts_1600(index)
    } else if index < 1728 {
        part_g::texts_1664(index)
    } else if index < 1792 {
        part_g::texts_1728(index)
    } else if index < 1856 {
        part_h::texts_1792(index)
    } else if index < 1920 {
        part_h::texts_1856(index)
    } else if index < 1984 {
        part_h::texts_1920(index)
    } else if index < 2048 {
        part_h::texts_1984(index)
    } else if index < 2112 {
        part_i::texts_2048(index)
    } else if index < 2176 {
        part_i::texts_2112(index)
    } else {
        part_i::texts_2176(index)
    }
}

/// The name of the named character reference number `index` and the characters that it
/// stands for.
pub fn entity(index: usize) -> (r: (&'static str, &'static str))
    ensures
        r.0@ == entity_name(index as int),
        r.1@ == entity_text(index as int),
{
    if index < 64 {
        part_a::entry_0(index)
    } else if index < 128 {
        part_a::entry_64(index)
    } else if index < 192 {
        part_a::entry_128(index)
    } else if index < 256 {
        part_a::entry_192(index)
    } else if index < 320 {
        part_b::entry_256(index)
    } else if index < 384 {
        part_b::entry_320(index)
    } else if index < 448 {
        part_b::entry_384(index)
    } else if index < 512 {
        part_b::entry_448(index)
    } else if index < 576 {
        part_c::entry_512(index)
    } else if index < 640 {
        part_c::entry_576(index)
    } else if index < 704 {
        part_c::entry_640(index)
    } else if index < 768 {
        part_c::entry_704(index)
    } else if index < 832 {
        part_d::entry_768(index)
    } else if index < 896 {
        part_d::entry_832(index)
    } else if index < 960 {
        part_d::entry_896(index)
    } else if index < 1024 {
        part_d::entry_960(index)
    } else if index < 1088 {
        part_e::entry_1024(index)
    } else if index < 1152 {
        part_e::entry_1088(index)
    } else if index < 1216 {
        part_e::entry_1152(index)
    } else if index < 1280 {
        part_e::entry_1216(index)
    } else if index < 1344 {
        part_f::entry_1280(index)
    } else if index < 1408 {
        part_f::entry_1344(index)
    } else if index < 1472 {
        part_f::entry_1408(index)
    } else if index < 1536 {
        part_f::entry_1472(index)
    } else if index < 1600 {
        part_g::entry_1536(index)
    } else if index < 1664 {
        part_g::entry_1600(index)
    } else if index < 1728 {
        part_g::entry_1664(index)
    } else if index < 1792 {
        part_g::entry_1728(index)
    } else if index < 1856 {
        part_h::entry_1792(index)
    } else if index < 1920 {
        part_h::entry_1856(index)
    } else if index < 1984 {
        part_h::entry_1920(index)
    } else if index < 2048 {
        part_h::entry_1984(index)
    } else if index < 2112 {
        part_i::entry_2048(index)
    } else if index < 2176 {
        part_i::entry_2112(index)
    } else {
        part_i::entry_2176(index)
    }
}

} // verus!
