//! The tie between the name hash and the type tags of the archive format:
//! the tag of a kind is the hash of the kind's name.

use crate::hash::{absorb, absorb_tail, absorbed, finalize, spec_name_hash, MULTIPLIER};
use crate::parse::DataType;
use vstd::prelude::*;
use vstd::utf8::{encode_utf8, is_ascii_chars, is_ascii_chars_encode_utf8};

verus! {

/// The bytes of a name of ASCII characters are its characters.
proof fn lemma_ascii_name(name: Seq<char>)
    requires
        is_ascii_chars(name),
    ensures
        encode_utf8(name).len() == name.len(),
        forall|i: int| 0 <= i < name.len() ==> #[trigger] encode_utf8(name)[i] == name[i] as u8,
{
    is_ascii_chars_encode_utf8(name);
}

proof fn lemma_name_animation()
    ensures
        spec_name_hash("animation"@) == 0x931E336D7646CC26u64,
{
    reveal_strlit("animation");
    lemma_ascii_name("animation"@);
    reveal_with_fuel(absorbed, 4);
    assert({
        let h0 = 9u64.wrapping_mul(MULTIPLIER);
        let h1 = absorb(h0, 0x6f6974616d696e61u64);
        let h2 = absorb_tail(h1, 0x6eu64);
        finalize(h2) == 0x931E336D7646CC26u64
    }) by (bit_vector);
}

proof fn lemma_name_bik()
    ensures
        spec_name_hash("bik"@) == 0xAA5965F03029FA18u64,
{
    reveal_strlit("bik");
    lemma_ascii_name("bik"@);
    reveal_with_fuel(absorbed, 4);
    assert({
        let h0 = 3u64.wrapping_mul(MULTIPLIER);
        let h1 = absorb_tail(h0, 0x6b6962u64);
        finalize(h1) == 0xAA5965F03029FA18u64
    }) by (bit_vector);
}

proof fn lemma_name_bones()
    ensures
        spec_name_hash("bones"@) == 0x18DEAD01056B72E9u64,
{
    reveal_strlit("bones");
    lemma_ascii_name("bones"@);
    reveal_with_fuel(absorbed, 4);
    assert({
        let h0 = 5u64.wrapping_mul(MULTIPLIER);
        let h1 = absorb_tail(h0, 0x73656e6f62u64);
        finalize(h1) == 0x18DEAD01056B72E9u64
    }) by (bit_vector);
}

proof fn lemma_name_camera_shake()
    ensures
        spec_name_hash("camera_shake"@) == 0xFCAAF813B4D3CC1Eu64,
{
    reveal_strlit("camera_shake");
    lemma_ascii_name("camera_shake"@);
    reveal_with_fuel(absorbed, 4);
    assert({
        let h0 = 12u64.wrapping_mul(MULTIPLIER);
        let h1 = absorb(h0, 0x735f6172656d6163u64);
        let h2 = absorb_tail(h1, 0x656b6168u64);
        finalize(h2) == 0xFCAAF813B4D3CC1Eu64
    }) by (bit_vector);
}

proof fn lemma_name_config()
    ensures
        spec_name_hash("config"@) == 0x82645835E6B73232u64,
{
    reveal_strlit("config");
    lemma_ascii_name("config"@);
    reveal_with_fuel(absorbed, 4);
    assert({
        let h0 = 6u64.wrapping_mul(MULTIPLIER);
        let h1 = absorb_tail(h0, 0x6769666e6f63u64);
        finalize(h1) == 0x82645835E6B73232u64
    }) by (bit_vector);
}

proof fn lemma_name_entity()
    ensures
        spec_name_hash("entity"@) == 0x9831CA893B0D087Du64,
{
    reveal_strlit("entity");
    lemma_ascii_name("entity"@);
    reveal_with_fuel(absorbed, 4);
    assert({
        let h0 = 6u64.wrapping_mul(MULTIPLIER);
        let h1 = absorb_tail(h0, 0x797469746e65u64);
        finalize(h1) == 0x9831CA893B0D087Du64
    }) by (bit_vector);
}

proof fn lemma_name_flow()
    ensures
        spec_name_hash("flow"@) == 0x92D3EE038EEB610Du64,
{
    reveal_strlit("flow");
    lemma_ascii_name("flow"@);
    reveal_with_fuel(absorbed, 4);
    assert({
        let h0 = 4u64.wrapping_mul(MULTIPLIER);
        let h1 = absorb_tail(h0, 0x776f6c66u64);
        finalize(h1) == 0x92D3EE038EEB610Du64
    }) by (bit_vector);
}

proof fn lemma_name_font()
    ensures
        spec_name_hash("font"@) == 0x9EFE0A916AAE7880u64,
{
    reveal_strlit("font");
    lemma_ascii_name("font"@);
    reveal_with_fuel(absorbed, 4);
    assert({
        let h0 = 4u64.wrapping_mul(MULTIPLIER);
        let h1 = absorb_tail(h0, 0x746e6f66u64);
        finalize(h1) == 0x9EFE0A916AAE7880u64
    }) by (bit_vector);
}

proof fn lemma_name_geleta()
    ensures
        spec_name_hash("geleta"@) == 0xB8FD4D2CEDE20ED7u64,
{
    reveal_strlit("geleta");
    lemma_ascii_name("geleta"@);
    reveal_with_fuel(absorbed, 4);
    assert({
        let h0 = 6u64.wrapping_mul(MULTIPLIER);
        let h1 = absorb_tail(h0, 0x6174656c6567u64);
        finalize(h1) == 0xB8FD4D2CEDE20ED7u64
    }) by (bit_vector);
}

proof fn lemma_name_geometry_group()
    ensures
        spec_name_hash("geometry_group"@) == 0xC4F0F4BE7FB0C8D6u64,
{
    reveal_strlit("geometry_group");
    lemma_ascii_name("geometry_group"@);
    reveal_with_fuel(absorbed, 4);
    assert({
        let h0 = 14u64.wrapping_mul(MULTIPLIER);
        let h1 = absorb(h0, 0x797274656d6f6567u64);
        let h2 = absorb_tail(h1, 0x70756f72675fu64);
        finalize(h2) == 0xC4F0F4BE7FB0C8D6u64
    }) by (bit_vector);
}

proof fn lemma_name_hash_lookup()
    ensures
        spec_name_hash("hash_lookup"@) == 0xE3F2851035957AF5u64,
{
    reveal_strlit("hash_lookup");
    lemma_ascii_name("hash_lookup"@);
    reveal_with_fuel(absorbed, 4);
    assert({
        let h0 = 11u64.wrapping_mul(MULTIPLIER);
        let h1 = absorb(h0, 0x6f6f6c5f68736168u64);
        let h2 = absorb_tail(h1, 0x70756bu64);
        finalize(h2) == 0xE3F2851035957AF5u64
    }) by (bit_vector);
}

proof fn lemma_name_havok_ai_properties()
    ensures
        spec_name_hash("havok_ai_properties"@) == 0x6592B918E67F082Cu64,
{
    reveal_strlit("havok_ai_properties");
    lemma_ascii_name("havok_ai_properties"@);
    reveal_with_fuel(absorbed, 4);
    assert({
        let h0 = 19u64.wrapping_mul(MULTIPLIER);
        let h1 = absorb(h0, 0x69615f6b6f766168u64);
        let h2 = absorb(h1, 0x747265706f72705fu64);
        let h3 = absorb_tail(h2, 0x736569u64);
        finalize(h3) == 0x6592B918E67F082Cu64
    }) by (bit_vector);
}

proof fn lemma_name_havok_physics_properties()
    ensures
        spec_name_hash("havok_physics_properties"@) == 0xF7A09F8BB35A1D49u64,
{
    reveal_strlit("havok_physics_properties");
    lemma_ascii_name("havok_physics_properties"@);
    reveal_with_fuel(absorbed, 4);
    assert({
        let h0 = 24u64.wrapping_mul(MULTIPLIER);
        let h1 = absorb(h0, 0x68705f6b6f766168u64);
        let h2 = absorb(h1, 0x72705f7363697379u64);
        let h3 = absorb(h2, 0x736569747265706fu64);
        finalize(h3) == 0xF7A09F8BB35A1D49u64
    }) by (bit_vector);
}

proof fn lemma_name_level()
    ensures
        spec_name_hash("level"@) == 0x2A690FD348FE9AC5u64,
{
    reveal_strlit("level");
    lemma_ascii_name("level"@);
    reveal_with_fuel(absorbed, 4);
    assert({
        let h0 = 5u64.wrapping_mul(MULTIPLIER);
        let h1 = absorb_tail(h0, 0x6c6576656cu64);
        finalize(h1) == 0x2A690FD348FE9AC5u64
    }) by (bit_vector);
}

proof fn lemma_name_lua()
    ensures
        spec_name_hash("lua"@) == 0xA14E8DFA2CD117E2u64,
{
    reveal_strlit("lua");
    lemma_ascii_name("lua"@);
    reveal_with_fuel(absorbed, 4);
    assert({
        let h0 = 3u64.wrapping_mul(MULTIPLIER);
        let h1 = absorb_tail(h0, 0x61756cu64);
        finalize(h1) == 0xA14E8DFA2CD117E2u64
    }) by (bit_vector);
}

proof fn lemma_name_material()
    ensures
        spec_name_hash("material"@) == 0xEAC0B497876ADEDFu64,
{
    reveal_strlit("material");
    lemma_ascii_name("material"@);
    reveal_with_fuel(absorbed, 4);
    assert({
        let h0 = 8u64.wrapping_mul(MULTIPLIER);
        let h1 = absorb(h0, 0x6c6169726574616du64);
        finalize(h1) == 0xEAC0B497876ADEDFu64
    }) by (bit_vector);
}

proof fn lemma_name_mouse_cursor()
    ensures
        spec_name_hash("mouse_cursor"@) == 0xB277B11FE4A61D37u64,
{
    reveal_strlit("mouse_cursor");
    lemma_ascii_name("mouse_cursor"@);
    reveal_with_fuel(absorbed, 4);
    assert({
        let h0 = 12u64.wrapping_mul(MULTIPLIER);
        let h1 = absorb(h0, 0x75635f6573756f6du64);
        let h2 = absorb_tail(h1, 0x726f7372u64);
        finalize(h2) == 0xB277B11FE4A61D37u64
    }) by (bit_vector);
}

proof fn lemma_name_network_config()
    ensures
        spec_name_hash("network_config"@) == 0x3B1FA9E8F6BAC374u64,
{
    reveal_strlit("network_config");
    lemma_ascii_name("network_config"@);
    reveal_with_fuel(absorbed, 4);
    assert({
        let h0 = 14u64.wrapping_mul(MULTIPLIER);
        let h1 = absorb(h0, 0x5f6b726f7774656eu64);
        let h2 = absorb_tail(h1, 0x6769666e6f63u64);
        finalize(h2) == 0x3B1FA9E8F6BAC374u64
    }) by (bit_vector);
}

proof fn lemma_name_package()
    ensures
        spec_name_hash("package"@) == 0xAD9C6D9ED1E5E77Au64,
{
    reveal_strlit("package");
    lemma_ascii_name("package"@);
    reveal_with_fuel(absorbed, 4);
    assert({
        let h0 = 7u64.wrapping_mul(MULTIPLIER);
        let h1 = absorb_tail(h0, 0x6567616b636170u64);
        finalize(h1) == 0xAD9C6D9ED1E5E77Au64
    }) by (bit_vector);
}

proof fn lemma_name_particles()
    ensures
        spec_name_hash("particles"@) == 0xA8193123526FAD64u64,
{
    reveal_strlit("particles");
    lemma_ascii_name("particles"@);
    reveal_with_fuel(absorbed, 4);
    assert({
        let h0 = 9u64.wrapping_mul(MULTIPLIER);
        let h1 = absorb(h0, 0x656c636974726170u64);
        let h2 = absorb_tail(h1, 0x73u64);
        finalize(h2) == 0xA8193123526FAD64u64
    }) by (bit_vector);
}

proof fn lemma_name_physics()
    ensures
        spec_name_hash("physics"@) == 0x5F7203C8F280DAB8u64,
{
    reveal_strlit("physics");
    lemma_ascii_name("physics"@);
    reveal_with_fuel(absorbed, 4);
    assert({
        let h0 = 7u64.wrapping_mul(MULTIPLIER);
        let h1 = absorb_tail(h0, 0x73636973796870u64);
        finalize(h1) == 0x5F7203C8F280DAB8u64
    }) by (bit_vector);
}

proof fn lemma_name_prefab()
    ensures
        spec_name_hash("prefab"@) == 0xAB2F78E885F513C6u64,
{
    reveal_strlit("prefab");
    lemma_ascii_name("prefab"@);
    reveal_with_fuel(absorbed, 4);
    assert({
        let h0 = 6u64.wrapping_mul(MULTIPLIER);
        let h1 = absorb_tail(h0, 0x626166657270u64);
        finalize(h1) == 0xAB2F78E885F513C6u64
    }) by (bit_vector);
}

proof fn lemma_name_renderable()
    ensures
        spec_name_hash("renderable"@) == 0x7910103158FC1DE9u64,
{
    reveal_strlit("renderable");
    lemma_ascii_name("renderable"@);
    reveal_with_fuel(absorbed, 4);
    assert({
        let h0 = 10u64.wrapping_mul(MULTIPLIER);
        let h1 = absorb(h0, 0x62617265646e6572u64);
        let h2 = absorb_tail(h1, 0x656cu64);
        finalize(h2) == 0x7910103158FC1DE9u64
    }) by (bit_vector);
}

proof fn lemma_name_render_config()
    ensures
        spec_name_hash("render_config"@) == 0x27862FE24795319Cu64,
{
    reveal_strlit("render_config");
    lemma_ascii_name("render_config"@);
    reveal_with_fuel(absorbed, 4);
    assert({
        let h0 = 13u64.wrapping_mul(MULTIPLIER);
        let h1 = absorb(h0, 0x635f7265646e6572u64);
        let h2 = absorb_tail(h1, 0x6769666e6fu64);
        finalize(h2) == 0x27862FE24795319Cu64
    }) by (bit_vector);
}

proof fn lemma_name_runtime_font()
    ensures
        spec_name_hash("runtime_font"@) == 0x05106B81DCD58A13u64,
{
    reveal_strlit("runtime_font");
    lemma_ascii_name("runtime_font"@);
    reveal_with_fuel(absorbed, 4);
    assert({
        let h0 = 12u64.wrapping_mul(MULTIPLIER);
        let h1 = absorb(h0, 0x5f656d69746e7572u64);
        let h2 = absorb_tail(h1, 0x746e6f66u64);
        finalize(h2) == 0x05106B81DCD58A13u64
    }) by (bit_vector);
}

proof fn lemma_name_shader_library()
    ensures
        spec_name_hash("shader_library"@) == 0xE5EE32A477239A93u64,
{
    reveal_strlit("shader_library");
    lemma_ascii_name("shader_library"@);
    reveal_with_fuel(absorbed, 4);
    assert({
        let h0 = 14u64.wrapping_mul(MULTIPLIER);
        let h1 = absorb(h0, 0x6c5f726564616873u64);
        let h2 = absorb_tail(h1, 0x797261726269u64);
        finalize(h2) == 0xE5EE32A477239A93u64
    }) by (bit_vector);
}

proof fn lemma_name_shader_library_group()
    ensures
        spec_name_hash("shader_library_group"@) == 0x9E5C3CC74575AEB5u64,
{
    reveal_strlit("shader_library_group");
    lemma_ascii_name("shader_library_group"@);
    reveal_with_fuel(absorbed, 4);
    assert({
        let h0 = 20u64.wrapping_mul(MULTIPLIER);
        let h1 = absorb(h0, 0x6c5f726564616873u64);
        let h2 = absorb(h1, 0x675f797261726269u64);
        let h3 = absorb_tail(h2, 0x70756f72u64);
        finalize(h3) == 0x9E5C3CC74575AEB5u64
    }) by (bit_vector);
}

proof fn lemma_name_shading_environment()
    ensures
        spec_name_hash("shading_environment"@) == 0xFE73C7DCFF8A7CA5u64,
{
    reveal_strlit("shading_environment");
    lemma_ascii_name("shading_environment"@);
    reveal_with_fuel(absorbed, 4);
    assert({
        let h0 = 19u64.wrapping_mul(MULTIPLIER);
        let h1 = absorb(h0, 0x5f676e6964616873u64);
        let h2 = absorb(h1, 0x6d6e6f7269766e65u64);
        let h3 = absorb_tail(h2, 0x746e65u64);
        finalize(h3) == 0xFE73C7DCFF8A7CA5u64
    }) by (bit_vector);
}

proof fn lemma_name_shading_environment_mapping()
    ensures
        spec_name_hash("shading_environment_mapping"@) == 0x250E0A11AC8E26F8u64,
{
    reveal_strlit("shading_environment_mapping");
    lemma_ascii_name("shading_environment_mapping"@);
    reveal_with_fuel(absorbed, 4);
    assert({
        let h0 = 27u64.wrapping_mul(MULTIPLIER);
        let h1 = absorb(h0, 0x5f676e6964616873u64);
        let h2 = absorb(h1, 0x6d6e6f7269766e65u64);
        let h3 = absorb(h2, 0x7070616d5f746e65u64);
        let h4 = absorb_tail(h3, 0x676e69u64);
        finalize(h4) == 0x250E0A11AC8E26F8u64
    }) by (bit_vector);
}

proof fn lemma_name_speedtree()
    ensures
        spec_name_hash("speedtree"@) == 0xE985C5F61C169997u64,
{
    reveal_strlit("speedtree");
    lemma_ascii_name("speedtree"@);
    reveal_with_fuel(absorbed, 4);
    assert({
        let h0 = 9u64.wrapping_mul(MULTIPLIER);
        let h1 = absorb(h0, 0x6572746465657073u64);
        let h2 = absorb_tail(h1, 0x65u64);
        finalize(h2) == 0xE985C5F61C169997u64
    }) by (bit_vector);
}

proof fn lemma_name_state_machine()
    ensures
        spec_name_hash("state_machine"@) == 0xA486D4045106165Cu64,
{
    reveal_strlit("state_machine");
    lemma_ascii_name("state_machine"@);
    reveal_with_fuel(absorbed, 4);
    assert({
        let h0 = 13u64.wrapping_mul(MULTIPLIER);
        let h1 = absorb(h0, 0x616d5f6574617473u64);
        let h2 = absorb_tail(h1, 0x656e696863u64);
        finalize(h2) == 0xA486D4045106165Cu64
    }) by (bit_vector);
}

proof fn lemma_name_strings()
    ensures
        spec_name_hash("strings"@) == 0x0D972BAB10B40FD3u64,
{
    reveal_strlit("strings");
    lemma_ascii_name("strings"@);
    reveal_with_fuel(absorbed, 4);
    assert({
        let h0 = 7u64.wrapping_mul(MULTIPLIER);
        let h1 = absorb_tail(h0, 0x73676e69727473u64);
        finalize(h1) == 0x0D972BAB10B40FD3u64
    }) by (bit_vector);
}

proof fn lemma_name_texture()
    ensures
        spec_name_hash("texture"@) == 0xCD4238C6A0C69E32u64,
{
    reveal_strlit("texture");
    lemma_ascii_name("texture"@);
    reveal_with_fuel(absorbed, 4);
    assert({
        let h0 = 7u64.wrapping_mul(MULTIPLIER);
        let h1 = absorb_tail(h0, 0x65727574786574u64);
        finalize(h1) == 0xCD4238C6A0C69E32u64
    }) by (bit_vector);
}

proof fn lemma_name_texture_atlas()
    ensures
        spec_name_hash("texture_atlas"@) == 0x9199BB50B6896F02u64,
{
    reveal_strlit("texture_atlas");
    lemma_ascii_name("texture_atlas"@);
    reveal_with_fuel(absorbed, 4);
    assert({
        let h0 = 13u64.wrapping_mul(MULTIPLIER);
        let h1 = absorb(h0, 0x5f65727574786574u64);
        let h2 = absorb_tail(h1, 0x73616c7461u64);
        finalize(h2) == 0x9199BB50B6896F02u64
    }) by (bit_vector);
}

proof fn lemma_name_unit()
    ensures
        spec_name_hash("unit"@) == 0xE0A48D0BE9A7453Fu64,
{
    reveal_strlit("unit");
    lemma_ascii_name("unit"@);
    reveal_with_fuel(absorbed, 4);
    assert({
        let h0 = 4u64.wrapping_mul(MULTIPLIER);
        let h1 = absorb_tail(h0, 0x74696e75u64);
        finalize(h1) == 0xE0A48D0BE9A7453Fu64
    }) by (bit_vector);
}

proof fn lemma_name_vector_field()
    ensures
        spec_name_hash("vector_field"@) == 0xF7505933166D6755u64,
{
    reveal_strlit("vector_field");
    lemma_ascii_name("vector_field"@);
    reveal_with_fuel(absorbed, 4);
    assert({
        let h0 = 12u64.wrapping_mul(MULTIPLIER);
        let h1 = absorb(h0, 0x665f726f74636576u64);
        let h2 = absorb_tail(h1, 0x646c6569u64);
        finalize(h2) == 0xF7505933166D6755u64
    }) by (bit_vector);
}

proof fn lemma_name_wwise_bank()
    ensures
        spec_name_hash("wwise_bank"@) == 0x535A7BD3E650D799u64,
{
    reveal_strlit("wwise_bank");
    lemma_ascii_name("wwise_bank"@);
    reveal_with_fuel(absorbed, 4);
    assert({
        let h0 = 10u64.wrapping_mul(MULTIPLIER);
        let h1 = absorb(h0, 0x61625f6573697777u64);
        let h2 = absorb_tail(h1, 0x6b6eu64);
        finalize(h2) == 0x535A7BD3E650D799u64
    }) by (bit_vector);
}

proof fn lemma_name_wwise_dep()
    ensures
        spec_name_hash("wwise_dep"@) == 0xAF32095C82F2B070u64,
{
    reveal_strlit("wwise_dep");
    lemma_ascii_name("wwise_dep"@);
    reveal_with_fuel(absorbed, 4);
    assert({
        let h0 = 9u64.wrapping_mul(MULTIPLIER);
        let h1 = absorb(h0, 0x65645f6573697777u64);
        let h2 = absorb_tail(h1, 0x70u64);
        finalize(h2) == 0xAF32095C82F2B070u64
    }) by (bit_vector);
}

proof fn lemma_name_wwise_metadata()
    ensures
        spec_name_hash("wwise_metadata"@) == 0xD50A8B7E1C82B110u64,
{
    reveal_strlit("wwise_metadata");
    lemma_ascii_name("wwise_metadata"@);
    reveal_with_fuel(absorbed, 4);
    assert({
        let h0 = 14u64.wrapping_mul(MULTIPLIER);
        let h1 = absorb(h0, 0x656d5f6573697777u64);
        let h2 = absorb_tail(h1, 0x617461646174u64);
        finalize(h2) == 0xD50A8B7E1C82B110u64
    }) by (bit_vector);
}

proof fn lemma_name_wwise_stream()
    ensures
        spec_name_hash("wwise_stream"@) == 0x504B55235D21440Eu64,
{
    reveal_strlit("wwise_stream");
    lemma_ascii_name("wwise_stream"@);
    reveal_with_fuel(absorbed, 4);
    assert({
        let h0 = 12u64.wrapping_mul(MULTIPLIER);
        let h1 = absorb(h0, 0x74735f6573697777u64);
        let h2 = absorb_tail(h1, 0x6d616572u64);
        finalize(h2) == 0x504B55235D21440Eu64
    }) by (bit_vector);
}

/// The tag of every kind whose name is known is the hash of that name.
pub proof fn lemma_known_tag_is_name_hash(kind: DataType)
    requires
        kind.spec_is_known(),
    ensures
        spec_name_hash(kind.spec_name()) == kind.spec_tag(),
{
    match kind {
        DataType::animation => lemma_name_animation(),
        DataType::bik => lemma_name_bik(),
        DataType::bones => lemma_name_bones(),
        DataType::camera_shake => lemma_name_camera_shake(),
        DataType::config => lemma_name_config(),
        DataType::entity => lemma_name_entity(),
        DataType::flow => lemma_name_flow(),
        DataType::font => lemma_name_font(),
        DataType::geleta => lemma_name_geleta(),
        DataType::geometry_group => lemma_name_geometry_group(),
        DataType::hash_lookup => lemma_name_hash_lookup(),
        DataType::havok_ai_properties => lemma_name_havok_ai_properties(),
        DataType::havok_physics_properties => lemma_name_havok_physics_properties(),
        DataType::level => lemma_name_level(),
        DataType::lua => lemma_name_lua(),
        DataType::material => lemma_name_material(),
        DataType::mouse_cursor => lemma_name_mouse_cursor(),
        DataType::network_config => lemma_name_network_config(),
        DataType::package => lemma_name_package(),
        DataType::particles => lemma_name_particles(),
        DataType::physics => lemma_name_physics(),
        DataType::prefab => lemma_name_prefab(),
        DataType::renderable => lemma_name_renderable(),
        DataType::render_config => lemma_name_render_config(),
        DataType::runtime_font => lemma_name_runtime_font(),
        DataType::shader_library => lemma_name_shader_library(),
        DataType::shader_library_group => lemma_name_shader_library_group(),
        DataType::shading_environment => lemma_name_shading_environment(),
        DataType::shading_environment_mapping => lemma_name_shading_environment_mapping(),
        DataType::speedtree => lemma_name_speedtree(),
        DataType::state_machine => lemma_name_state_machine(),
        DataType::strings => lemma_name_strings(),
        DataType::texture => lemma_name_texture(),
        DataType::texture_atlas => lemma_name_texture_atlas(),
        DataType::unit => lemma_name_unit(),
        DataType::vector_field => lemma_name_vector_field(),
        DataType::wwise_bank => lemma_name_wwise_bank(),
        DataType::wwise_dep => lemma_name_wwise_dep(),
        DataType::wwise_metadata => lemma_name_wwise_metadata(),
        DataType::wwise_stream => lemma_name_wwise_stream(),
        _ => {},
    }
}

} // verus!
