//! Decoder for archive container files: the header, the type directory and
//! the list of per-asset data records.

use crate::bytes::{le_u32, le_u64, read_u32, read_u64};
use vstd::prelude::*;

verus! {

/// The kind of an asset. A tag is the name hash of the kind's symbolic name;
/// a tag outside the list is kept as it was read, in `Unrecognized`.
#[allow(non_camel_case_types)]
#[derive(Debug, Eq, PartialEq, Structural, Copy, Clone)]
pub enum DataType {
    animation,
    /// Bink video
    bik,
    bones,
    camera_shake,
    config,
    entity,
    flow,
    font,
    geleta,
    geometry_group,
    hash_lookup,
    havok_ai_properties,
    havok_physics_properties,
    level,
    lua,
    material,
    mouse_cursor,
    network_config,
    package,
    particles,
    physics,
    prefab,
    renderable,
    render_config,
    runtime_font,
    shader_library,
    shader_library_group,
    shading_environment,
    shading_environment_mapping,
    speedtree,
    state_machine,
    strings,
    texture,
    texture_atlas,
    unit,
    vector_field,
    wwise_bank,
    wwise_dep,
    wwise_metadata,
    /// WWise WEM audio (modified RIFF/WAV file)
    wwise_stream,
    Unknown1,
    Unknown2,
    Unknown3,
    Unknown4,
    Unknown5,
    /// A tag that the list does not hold, kept verbatim.
    Unrecognized(u64),
}

impl DataType {
    /// The 64-bit tag that stands for this kind in a container file.
    pub open spec fn spec_tag(self) -> u64 {
        match self {
            DataType::animation => 0x931E336D7646CC26,
            DataType::bik => 0xAA5965F03029FA18,
            DataType::bones => 0x18DEAD01056B72E9,
            DataType::camera_shake => 0xFCAAF813B4D3CC1E,
            DataType::config => 0x82645835E6B73232,
            DataType::entity => 0x9831CA893B0D087D,
            DataType::flow => 0x92D3EE038EEB610D,
            DataType::font => 0x9EFE0A916AAE7880,
            DataType::geleta => 0xB8FD4D2CEDE20ED7,
            DataType::geometry_group => 0xC4F0F4BE7FB0C8D6,
            DataType::hash_lookup => 0xE3F2851035957AF5,
            DataType::havok_ai_properties => 0x6592B918E67F082C,
            DataType::havok_physics_properties => 0xF7A09F8BB35A1D49,
            DataType::level => 0x2A690FD348FE9AC5,
            DataType::lua => 0xA14E8DFA2CD117E2,
            DataType::material => 0xEAC0B497876ADEDF,
            DataType::mouse_cursor => 0xB277B11FE4A61D37,
            DataType::network_config => 0x3B1FA9E8F6BAC374,
            DataType::package => 0xAD9C6D9ED1E5E77A,
            DataType::particles => 0xA8193123526FAD64,
            DataType::physics => 0x5F7203C8F280DAB8,
            DataType::prefab => 0xAB2F78E885F513C6,
            DataType::renderable => 0x7910103158FC1DE9,
            DataType::render_config => 0x27862FE24795319C,
            DataType::runtime_font => 0x05106B81DCD58A13,
            DataType::shader_library => 0xE5EE32A477239A93,
            DataType::shader_library_group => 0x9E5C3CC74575AEB5,
            DataType::shading_environment => 0xFE73C7DCFF8A7CA5,
            DataType::shading_environment_mapping => 0x250E0A11AC8E26F8,
            DataType::speedtree => 0xE985C5F61C169997,
            DataType::state_machine => 0xA486D4045106165C,
            DataType::strings => 0x0D972BAB10B40FD3,
            DataType::texture => 0xCD4238C6A0C69E32,
            DataType::texture_atlas => 0x9199BB50B6896F02,
            DataType::unit => 0xE0A48D0BE9A7453F,
            DataType::vector_field => 0xF7505933166D6755,
            DataType::wwise_bank => 0x535A7BD3E650D799,
            DataType::wwise_dep => 0xAF32095C82F2B070,
            DataType::wwise_metadata => 0xD50A8B7E1C82B110,
            DataType::wwise_stream => 0x504B55235D21440E,
            DataType::Unknown1 => 0x1D59BD6687DB6B33,
            DataType::Unknown2 => 0x57A13425279979D7,
            DataType::Unknown3 => 0xD7014A50477953E0,
            DataType::Unknown4 => 0x2A0A70ACFE476E1D,
            DataType::Unknown5 => 0x5FDD5FE391076F9F,
            DataType::Unrecognized(tag) => tag,
        }
    }

    /// The kind that a tag read from a container file stands for.
    pub open spec fn spec_from_tag(tag: u64) -> DataType {
        if tag == 0x931E336D7646CC26 {
            DataType::animation
        } else if tag == 0xAA5965F03029FA18 {
            DataType::bik
        } else if tag == 0x18DEAD01056B72E9 {
            DataType::bones
        } else if tag == 0xFCAAF813B4D3CC1E {
            DataType::camera_shake
        } else if tag == 0x82645835E6B73232 {
            DataType::config
        } else if tag == 0x9831CA893B0D087D {
            DataType::entity
        } else if tag == 0x92D3EE038EEB610D {
            DataType::flow
        } else if tag == 0x9EFE0A916AAE7880 {
            DataType::font
        } else if tag == 0xB8FD4D2CEDE20ED7 {
            DataType::geleta
        } else if tag == 0xC4F0F4BE7FB0C8D6 {
            DataType::geometry_group
        } else if tag == 0xE3F2851035957AF5 {
            DataType::hash_lookup
        } else if tag == 0x6592B918E67F082C {
            DataType::havok_ai_properties
        } else if tag == 0xF7A09F8BB35A1D49 {
            DataType::havok_physics_properties
        } else if tag == 0x2A690FD348FE9AC5 {
            DataType::level
        } else if tag == 0xA14E8DFA2CD117E2 {
            DataType::lua
        } else if tag == 0xEAC0B497876ADEDF {
            DataType::material
        } else if tag == 0xB277B11FE4A61D37 {
            DataType::mouse_cursor
        } else if tag == 0x3B1FA9E8F6BAC374 {
            DataType::network_config
        } else if tag == 0xAD9C6D9ED1E5E77A {
            DataType::package
        } else if tag == 0xA8193123526FAD64 {
            DataType::particles
        } else if tag == 0x5F7203C8F280DAB8 {
            DataType::physics
        } else if tag == 0xAB2F78E885F513C6 {
            DataType::prefab
        } else if tag == 0x7910103158FC1DE9 {
            DataType::renderable
        } else if tag == 0x27862FE24795319C {
            DataType::render_config
        } else if tag == 0x05106B81DCD58A13 {
            DataType::runtime_font
        } else if tag == 0xE5EE32A477239A93 {
            DataType::shader_library
        } else if tag == 0x9E5C3CC74575AEB5 {
            DataType::shader_library_group
        } else if tag == 0xFE73C7DCFF8A7CA5 {
            DataType::shading_environment
        } else if tag == 0x250E0A11AC8E26F8 {
            DataType::shading_environment_mapping
        } else if tag == 0xE985C5F61C169997 {
            DataType::speedtree
        } else if tag == 0xA486D4045106165C {
            DataType::state_machine
        } else if tag == 0x0D972BAB10B40FD3 {
            DataType::strings
        } else if tag == 0xCD4238C6A0C69E32 {
            DataType::texture
        } else if tag == 0x9199BB50B6896F02 {
            DataType::texture_atlas
        } else if tag == 0xE0A48D0BE9A7453F {
            DataType::unit
        } else if tag == 0xF7505933166D6755 {
            DataType::vector_field
        } else if tag == 0x535A7BD3E650D799 {
            DataType::wwise_bank
        } else if tag == 0xAF32095C82F2B070 {
            DataType::wwise_dep
        } else if tag == 0xD50A8B7E1C82B110 {
            DataType::wwise_metadata
        } else if tag == 0x504B55235D21440E {
            DataType::wwise_stream
        } else if tag == 0x1D59BD6687DB6B33 {
            DataType::Unknown1
        } else if tag == 0x57A13425279979D7 {
            DataType::Unknown2
        } else if tag == 0xD7014A50477953E0 {
            DataType::Unknown3
        } else if tag == 0x2A0A70ACFE476E1D {
            DataType::Unknown4
        } else if tag == 0x5FDD5FE391076F9F {
            DataType::Unknown5
        } else {
            DataType::Unrecognized(tag)
        }
    }

    /// The symbolic name of this kind.
    pub open spec fn spec_name(self) -> Seq<char> {
        match self {
            DataType::animation => "animation"@,
            DataType::bik => "bik"@,
            DataType::bones => "bones"@,
            DataType::camera_shake => "camera_shake"@,
            DataType::config => "config"@,
            DataType::entity => "entity"@,
            DataType::flow => "flow"@,
            DataType::font => "font"@,
            DataType::geleta => "geleta"@,
            DataType::geometry_group => "geometry_group"@,
            DataType::hash_lookup => "hash_lookup"@,
            DataType::havok_ai_properties => "havok_ai_properties"@,
            DataType::havok_physics_properties => "havok_physics_properties"@,
            DataType::level => "level"@,
            DataType::lua => "lua"@,
            DataType::material => "material"@,
            DataType::mouse_cursor => "mouse_cursor"@,
            DataType::network_config => "network_config"@,
            DataType::package => "package"@,
            DataType::particles => "particles"@,
            DataType::physics => "physics"@,
            DataType::prefab => "prefab"@,
            DataType::renderable => "renderable"@,
            DataType::render_config => "render_config"@,
            DataType::runtime_font => "runtime_font"@,
            DataType::shader_library => "shader_library"@,
            DataType::shader_library_group => "shader_library_group"@,
            DataType::shading_environment => "shading_environment"@,
            DataType::shading_environment_mapping => "shading_environment_mapping"@,
            DataType::speedtree => "speedtree"@,
            DataType::state_machine => "state_machine"@,
            DataType::strings => "strings"@,
            DataType::texture => "texture"@,
            DataType::texture_atlas => "texture_atlas"@,
            DataType::unit => "unit"@,
            DataType::vector_field => "vector_field"@,
            DataType::wwise_bank => "wwise_bank"@,
            DataType::wwise_dep => "wwise_dep"@,
            DataType::wwise_metadata => "wwise_metadata"@,
            DataType::wwise_stream => "wwise_stream"@,
            DataType::Unknown1 => "Unknown1"@,
            DataType::Unknown2 => "Unknown2"@,
            DataType::Unknown3 => "Unknown3"@,
            DataType::Unknown4 => "Unknown4"@,
            DataType::Unknown5 => "Unknown5"@,
            DataType::Unrecognized(_) => "Unrecognized"@,
        }
    }

    /// Whether the symbolic name of this kind is known, so that its tag is the
    /// hash of its name.
    pub open spec fn spec_is_known(self) -> bool {
        !(self is Unknown1 || self is Unknown2 || self is Unknown3 || self is Unknown4
            || self is Unknown5 || self is Unrecognized)
    }

    /// An `Unrecognized` value holds no tag of the list: each tag has one
    /// representation.
    pub open spec fn wf(self) -> bool {
        self matches DataType::Unrecognized(tag) ==> DataType::spec_from_tag(tag) == self
    }

    /// The listed kinds, in the order of their declaration.
    pub open spec fn listed() -> Seq<DataType> {
        seq![
            DataType::animation,
            DataType::bik,
            DataType::bones,
            DataType::camera_shake,
            DataType::config,
            DataType::entity,
            DataType::flow,
            DataType::font,
            DataType::geleta,
            DataType::geometry_group,
            DataType::hash_lookup,
            DataType::havok_ai_properties,
            DataType::havok_physics_properties,
            DataType::level,
            DataType::lua,
            DataType::material,
            DataType::mouse_cursor,
            DataType::network_config,
            DataType::package,
            DataType::particles,
            DataType::physics,
            DataType::prefab,
            DataType::renderable,
            DataType::render_config,
            DataType::runtime_font,
            DataType::shader_library,
            DataType::shader_library_group,
            DataType::shading_environment,
            DataType::shading_environment_mapping,
            DataType::speedtree,
            DataType::state_machine,
            DataType::strings,
            DataType::texture,
            DataType::texture_atlas,
            DataType::unit,
            DataType::vector_field,
            DataType::wwise_bank,
            DataType::wwise_dep,
            DataType::wwise_metadata,
            DataType::wwise_stream,
            DataType::Unknown1,
            DataType::Unknown2,
            DataType::Unknown3,
            DataType::Unknown4,
            DataType::Unknown5,
        ]
    }

    /// The tag of this kind.
    pub fn tag(&self) -> (tag: u64)
        ensures
            tag == self.spec_tag(),
    {
        match self {
            DataType::animation => 0x931E336D7646CC26,
            DataType::bik => 0xAA5965F03029FA18,
            DataType::bones => 0x18DEAD01056B72E9,
            DataType::camera_shake => 0xFCAAF813B4D3CC1E,
            DataType::config => 0x82645835E6B73232,
            DataType::entity => 0x9831CA893B0D087D,
            DataType::flow => 0x92D3EE038EEB610D,
            DataType::font => 0x9EFE0A916AAE7880,
            DataType::geleta => 0xB8FD4D2CEDE20ED7,
            DataType::geometry_group => 0xC4F0F4BE7FB0C8D6,
            DataType::hash_lookup => 0xE3F2851035957AF5,
            DataType::havok_ai_properties => 0x6592B918E67F082C,
            DataType::havok_physics_properties => 0xF7A09F8BB35A1D49,
            DataType::level => 0x2A690FD348FE9AC5,
            DataType::lua => 0xA14E8DFA2CD117E2,
            DataType::material => 0xEAC0B497876ADEDF,
            DataType::mouse_cursor => 0xB277B11FE4A61D37,
            DataType::network_config => 0x3B1FA9E8F6BAC374,
            DataType::package => 0xAD9C6D9ED1E5E77A,
            DataType::particles => 0xA8193123526FAD64,
            DataType::physics => 0x5F7203C8F280DAB8,
            DataType::prefab => 0xAB2F78E885F513C6,
            DataType::renderable => 0x7910103158FC1DE9,
            DataType::render_config => 0x27862FE24795319C,
            DataType::runtime_font => 0x05106B81DCD58A13,
            DataType::shader_library => 0xE5EE32A477239A93,
            DataType::shader_library_group => 0x9E5C3CC74575AEB5,
            DataType::shading_environment => 0xFE73C7DCFF8A7CA5,
            DataType::shading_environment_mapping => 0x250E0A11AC8E26F8,
            DataType::speedtree => 0xE985C5F61C169997,
            DataType::state_machine => 0xA486D4045106165C,
            DataType::strings => 0x0D972BAB10B40FD3,
            DataType::texture => 0xCD4238C6A0C69E32,
            DataType::texture_atlas => 0x9199BB50B6896F02,
            DataType::unit => 0xE0A48D0BE9A7453F,
            DataType::vector_field => 0xF7505933166D6755,
            DataType::wwise_bank => 0x535A7BD3E650D799,
            DataType::wwise_dep => 0xAF32095C82F2B070,
            DataType::wwise_metadata => 0xD50A8B7E1C82B110,
            DataType::wwise_stream => 0x504B55235D21440E,
            DataType::Unknown1 => 0x1D59BD6687DB6B33,
            DataType::Unknown2 => 0x57A13425279979D7,
            DataType::Unknown3 => 0xD7014A50477953E0,
            DataType::Unknown4 => 0x2A0A70ACFE476E1D,
            DataType::Unknown5 => 0x5FDD5FE391076F9F,
            DataType::Unrecognized(tag) => *tag,
        }
    }

    /// The kind of a tag: the listed kind with that tag, or the tag itself,
    /// unrecognized.
    pub fn from_tag(tag: u64) -> (kind: DataType)
        ensures
            kind == DataType::spec_from_tag(tag),
            kind.spec_tag() == tag,
            kind.wf(),
    {
        if tag == 0x931E336D7646CC26 {
            DataType::animation
        } else if tag == 0xAA5965F03029FA18 {
            DataType::bik
        } else if tag == 0x18DEAD01056B72E9 {
            DataType::bones
        } else if tag == 0xFCAAF813B4D3CC1E {
            DataType::camera_shake
        } else if tag == 0x82645835E6B73232 {
            DataType::config
        } else if tag == 0x9831CA893B0D087D {
            DataType::entity
        } else if tag == 0x92D3EE038EEB610D {
            DataType::flow
        } else if tag == 0x9EFE0A916AAE7880 {
            DataType::font
        } else if tag == 0xB8FD4D2CEDE20ED7 {
            DataType::geleta
        } else if tag == 0xC4F0F4BE7FB0C8D6 {
            DataType::geometry_group
        } else if tag == 0xE3F2851035957AF5 {
            DataType::hash_lookup
        } else if tag == 0x6592B918E67F082C {
            DataType::havok_ai_properties
        } else if tag == 0xF7A09F8BB35A1D49 {
            DataType::havok_physics_properties
        } else if tag == 0x2A690FD348FE9AC5 {
            DataType::level
        } else if tag == 0xA14E8DFA2CD117E2 {
            DataType::lua
        } else if tag == 0xEAC0B497876ADEDF {
            DataType::material
        } else if tag == 0xB277B11FE4A61D37 {
            DataType::mouse_cursor
        } else if tag == 0x3B1FA9E8F6BAC374 {
            DataType::network_config
        } else if tag == 0xAD9C6D9ED1E5E77A {
            DataType::package
        } else if tag == 0xA8193123526FAD64 {
            DataType::particles
        } else if tag == 0x5F7203C8F280DAB8 {
            DataType::physics
        } else if tag == 0xAB2F78E885F513C6 {
            DataType::prefab
        } else if tag == 0x7910103158FC1DE9 {
            DataType::renderable
        } else if tag == 0x27862FE24795319C {
            DataType::render_config
        } else if tag == 0x05106B81DCD58A13 {
            DataType::runtime_font
        } else if tag == 0xE5EE32A477239A93 {
            DataType::shader_library
        } else if tag == 0x9E5C3CC74575AEB5 {
            DataType::shader_library_group
        } else if tag == 0xFE73C7DCFF8A7CA5 {
            DataType::shading_environment
        } else if tag == 0x250E0A11AC8E26F8 {
            DataType::shading_environment_mapping
        } else if tag == 0xE985C5F61C169997 {
            DataType::speedtree
        } else if tag == 0xA486D4045106165C {
            DataType::state_machine
        } else if tag == 0x0D972BAB10B40FD3 {
            DataType::strings
        } else if tag == 0xCD4238C6A0C69E32 {
            DataType::texture
        } else if tag == 0x9199BB50B6896F02 {
            DataType::texture_atlas
        } else if tag == 0xE0A48D0BE9A7453F {
            DataType::unit
        } else if tag == 0xF7505933166D6755 {
            DataType::vector_field
        } else if tag == 0x535A7BD3E650D799 {
            DataType::wwise_bank
        } else if tag == 0xAF32095C82F2B070 {
            DataType::wwise_dep
        } else if tag == 0xD50A8B7E1C82B110 {
            DataType::wwise_metadata
        } else if tag == 0x504B55235D21440E {
            DataType::wwise_stream
        } else if tag == 0x1D59BD6687DB6B33 {
            DataType::Unknown1
        } else if tag == 0x57A13425279979D7 {
            DataType::Unknown2
        } else if tag == 0xD7014A50477953E0 {
            DataType::Unknown3
        } else if tag == 0x2A0A70ACFE476E1D {
            DataType::Unknown4
        } else if tag == 0x5FDD5FE391076F9F {
            DataType::Unknown5
        } else {
            DataType::Unrecognized(tag)
        }
    }

    /// The symbolic name of this kind.
    pub fn name(&self) -> (name: &'static str)
        ensures
            name@ == self.spec_name(),
    {
        match self {
            DataType::animation => "animation",
            DataType::bik => "bik",
            DataType::bones => "bones",
            DataType::camera_shake => "camera_shake",
            DataType::config => "config",
            DataType::entity => "entity",
            DataType::flow => "flow",
            DataType::font => "font",
            DataType::geleta => "geleta",
            DataType::geometry_group => "geometry_group",
            DataType::hash_lookup => "hash_lookup",
            DataType::havok_ai_properties => "havok_ai_properties",
            DataType::havok_physics_properties => "havok_physics_properties",
            DataType::level => "level",
            DataType::lua => "lua",
            DataType::material => "material",
            DataType::mouse_cursor => "mouse_cursor",
            DataType::network_config => "network_config",
            DataType::package => "package",
            DataType::particles => "particles",
            DataType::physics => "physics",
            DataType::prefab => "prefab",
            DataType::renderable => "renderable",
            DataType::render_config => "render_config",
            DataType::runtime_font => "runtime_font",
            DataType::shader_library => "shader_library",
            DataType::shader_library_group => "shader_library_group",
            DataType::shading_environment => "shading_environment",
            DataType::shading_environment_mapping => "shading_environment_mapping",
            DataType::speedtree => "speedtree",
            DataType::state_machine => "state_machine",
            DataType::strings => "strings",
            DataType::texture => "texture",
            DataType::texture_atlas => "texture_atlas",
            DataType::unit => "unit",
            DataType::vector_field => "vector_field",
            DataType::wwise_bank => "wwise_bank",
            DataType::wwise_dep => "wwise_dep",
            DataType::wwise_metadata => "wwise_metadata",
            DataType::wwise_stream => "wwise_stream",
            DataType::Unknown1 => "Unknown1",
            DataType::Unknown2 => "Unknown2",
            DataType::Unknown3 => "Unknown3",
            DataType::Unknown4 => "Unknown4",
            DataType::Unknown5 => "Unknown5",
            DataType::Unrecognized(_) => "Unrecognized",
        }
    }

    /// Whether the symbolic name of this kind is known.
    pub fn is_known(&self) -> (known: bool)
        ensures
            known == self.spec_is_known(),
    {
        !matches!(
            self,
            DataType::Unknown1
                | DataType::Unknown2
                | DataType::Unknown3
                | DataType::Unknown4
                | DataType::Unknown5
                | DataType::Unrecognized(_)
        )
    }

    /// Every listed kind, in the order of its declaration.
    pub fn iter() -> (kinds: Vec<DataType>)
        ensures
            kinds@ == DataType::listed(),
    {
        let kinds = vec![
            DataType::animation,
            DataType::bik,
            DataType::bones,
            DataType::camera_shake,
            DataType::config,
            DataType::entity,
            DataType::flow,
            DataType::font,
            DataType::geleta,
            DataType::geometry_group,
            DataType::hash_lookup,
            DataType::havok_ai_properties,
            DataType::havok_physics_properties,
            DataType::level,
            DataType::lua,
            DataType::material,
            DataType::mouse_cursor,
            DataType::network_config,
            DataType::package,
            DataType::particles,
            DataType::physics,
            DataType::prefab,
            DataType::renderable,
            DataType::render_config,
            DataType::runtime_font,
            DataType::shader_library,
            DataType::shader_library_group,
            DataType::shading_environment,
            DataType::shading_environment_mapping,
            DataType::speedtree,
            DataType::state_machine,
            DataType::strings,
            DataType::texture,
            DataType::texture_atlas,
            DataType::unit,
            DataType::vector_field,
            DataType::wwise_bank,
            DataType::wwise_dep,
            DataType::wwise_metadata,
            DataType::wwise_stream,
            DataType::Unknown1,
            DataType::Unknown2,
            DataType::Unknown3,
            DataType::Unknown4,
            DataType::Unknown5,
        ];
        assert(kinds@ =~= DataType::listed());
        kinds
    }

    /// A tag survives the way through `from_tag` and `tag`, and what
    /// `from_tag` gives is well formed.
    pub proof fn lemma_tag_of_from_tag(tag: u64)
        ensures
            DataType::spec_from_tag(tag).spec_tag() == tag,
            DataType::spec_from_tag(tag).wf(),
    {
    }

    /// A well-formed kind is the one that `from_tag` gives for its tag.
    pub proof fn lemma_from_tag_of_tag(kind: DataType)
        requires
            kind.wf(),
        ensures
            DataType::spec_from_tag(kind.spec_tag()) == kind,
    {
    }
}

/// One entry of the type directory of a container file.
#[derive(Debug, Eq, PartialEq, Structural, Copy, Clone)]
pub struct TypeHeader {
    pub id: DataType,
    /// Number of data records of this type
    pub data_count: u64,
    pub size: u32,
    pub data_header_size: u32,
}

/// What a container file says of one asset: its identifier, its kind, and
/// where its bytes lie in each of the three storage tiers.
#[derive(Debug, Eq, PartialEq, Structural, Copy, Clone)]
pub struct DataRecord {
    pub id: u64,
    pub type_id: DataType,
    /// Data offset in this file
    pub offset: u64,
    /// Data offset in the stream file
    pub stream_offset: u32,
    /// Data offset in the gpu file
    pub gpu_offset: u64,
    /// Data size in this file
    pub data_size: u32,
    /// Data size in the stream file
    pub stream_size: u32,
    /// Data size in the gpu file
    pub gpu_size: u32,
    /// Kept as read; nothing here interprets it.
    pub index: u32,
}

/// One of the three places where the bytes of an asset may lie.
#[derive(Debug, Eq, PartialEq, Structural, Copy, Clone)]
pub enum Tier {
    /// The container file itself.
    Data,
    /// The stream file beside the container.
    Stream,
    /// The gpu resources file beside the container.
    Gpu,
}

impl DataRecord {
    /// Where the bytes of the asset start in the file of `tier`.
    pub open spec fn spec_tier_offset(self, tier: Tier) -> u64 {
        match tier {
            Tier::Data => self.offset,
            Tier::Stream => self.stream_offset as u64,
            Tier::Gpu => self.gpu_offset,
        }
    }

    /// How many bytes of the asset lie in the file of `tier`.
    pub open spec fn spec_tier_size(self, tier: Tier) -> u32 {
        match tier {
            Tier::Data => self.data_size,
            Tier::Stream => self.stream_size,
            Tier::Gpu => self.gpu_size,
        }
    }

    /// Where the bytes of the asset start in the file of `tier`.
    pub fn tier_offset(&self, tier: Tier) -> (offset: u64)
        ensures
            offset == self.spec_tier_offset(tier),
    {
        match tier {
            Tier::Data => self.offset,
            Tier::Stream => self.stream_offset as u64,
            Tier::Gpu => self.gpu_offset,
        }
    }

    /// How many bytes of the asset lie in the file of `tier`.
    pub fn tier_size(&self, tier: Tier) -> (size: u32)
        ensures
            size == self.spec_tier_size(tier),
    {
        match tier {
            Tier::Data => self.data_size,
            Tier::Stream => self.stream_size,
            Tier::Gpu => self.gpu_size,
        }
    }
}

/// The decoded structure of one container file.
#[derive(Debug)]
pub struct Hd2DataFile {
    pub type_count: u32,
    pub data_count: u32,
    pub type_headers: Vec<TypeHeader>,
    pub data_headers: Vec<DataRecord>,
}

/// A container file as a mathematical value.
pub struct Hd2DataFileView {
    pub type_count: u32,
    pub data_count: u32,
    pub type_headers: Seq<TypeHeader>,
    pub data_headers: Seq<DataRecord>,
}

impl View for Hd2DataFile {
    type V = Hd2DataFileView;

    open spec fn view(&self) -> Hd2DataFileView {
        Hd2DataFileView {
            type_count: self.type_count,
            data_count: self.data_count,
            type_headers: self.type_headers@,
            data_headers: self.data_headers@,
        }
    }
}

/// Why a byte string is no container file.
#[derive(Debug, Eq, PartialEq, Structural, Copy, Clone)]
pub enum DecodeError {
    /// The first four bytes are not the container magic.
    BadMagic,
    /// The input ends before the structures that it declares.
    Truncated,
}

/// Length of the fixed header: magic, type count, reserved bytes, record count.
pub const HEADER_LEN: usize = 80;

/// Length of one type directory entry, its trailing padding included.
pub const TYPE_HEADER_LEN: usize = 32;

/// Length of one data record.
pub const RECORD_LEN: usize = 80;

/// How far the record list reaches back into the section before it.
pub const RECORD_LIST_OVERLAP: usize = 8;

/// Whether `bytes` starts with the magic `11 00 00 F0`.
pub open spec fn has_magic(bytes: Seq<u8>) -> bool {
    bytes.len() >= 4 && bytes[0] == 0x11 && bytes[1] == 0x00 && bytes[2] == 0x00 && bytes[3]
        == 0xF0
}

/// The number of type directory entries that the header declares.
pub open spec fn declared_type_count(bytes: Seq<u8>) -> u32 {
    le_u32(bytes, 4)
}

/// The number of data records that the header declares, in its last four
/// bytes, behind 68 reserved bytes.
pub open spec fn declared_data_count(bytes: Seq<u8>) -> u32 {
    le_u32(bytes, 76)
}

/// Where the type directory ends.
pub open spec fn type_directory_end(bytes: Seq<u8>) -> int {
    HEADER_LEN + TYPE_HEADER_LEN * declared_type_count(bytes)
}

/// Where the record list starts: eight bytes before the end of the type
/// directory.
pub open spec fn record_list_start(bytes: Seq<u8>) -> int {
    type_directory_end(bytes) - RECORD_LIST_OVERLAP
}

/// Where the record list ends.
pub open spec fn record_list_end(bytes: Seq<u8>) -> int {
    record_list_start(bytes) + RECORD_LEN * declared_data_count(bytes)
}

/// The type directory entry in the 32 bytes at `at`.
pub open spec fn type_header_at(bytes: Seq<u8>, at: int) -> TypeHeader {
    TypeHeader {
        id: DataType::spec_from_tag(le_u64(bytes, at)),
        data_count: le_u64(bytes, at + 8),
        size: le_u32(bytes, at + 16),
        data_header_size: le_u32(bytes, at + 20),
    }
}

/// The data record in the 80 bytes at `at`.
pub open spec fn record_at(bytes: Seq<u8>, at: int) -> DataRecord {
    DataRecord {
        id: le_u64(bytes, at),
        type_id: DataType::spec_from_tag(le_u64(bytes, at + 8)),
        offset: le_u64(bytes, at + 16),
        stream_offset: le_u32(bytes, at + 24),
        gpu_offset: le_u64(bytes, at + 32),
        data_size: le_u32(bytes, at + 56),
        stream_size: le_u32(bytes, at + 60),
        gpu_size: le_u32(bytes, at + 64),
        index: le_u32(bytes, at + 76),
    }
}

/// The type directory that `bytes` holds.
pub open spec fn type_directory(bytes: Seq<u8>) -> Seq<TypeHeader> {
    Seq::new(
        declared_type_count(bytes) as nat,
        |i: int| type_header_at(bytes, HEADER_LEN + TYPE_HEADER_LEN * i),
    )
}

/// The record list that `bytes` holds.
pub open spec fn record_list(bytes: Seq<u8>) -> Seq<DataRecord> {
    Seq::new(
        declared_data_count(bytes) as nat,
        |j: int| record_at(bytes, record_list_start(bytes) + RECORD_LEN * j),
    )
}

/// What decoding `bytes` gives: the declared structures where the input
/// holds all of them, else the reason. Bytes behind the record list are not
/// looked at.
pub open spec fn spec_decode(bytes: Seq<u8>) -> Result<Hd2DataFileView, DecodeError> {
    if bytes.len() < 4 {
        Err(DecodeError::Truncated)
    } else if !has_magic(bytes) {
        Err(DecodeError::BadMagic)
    } else if bytes.len() < HEADER_LEN || bytes.len() < type_directory_end(bytes) || bytes.len()
        < record_list_end(bytes) {
        Err(DecodeError::Truncated)
    } else {
        Ok(
            Hd2DataFileView {
                type_count: declared_type_count(bytes),
                data_count: declared_data_count(bytes),
                type_headers: type_directory(bytes),
                data_headers: record_list(bytes),
            },
        )
    }
}

/// How many leading bytes of a container file hold its structures: where
/// the type directory ends or, if that is further, where the record list
/// ends.
pub open spec fn spec_extent(bytes: Seq<u8>) -> int {
    if record_list_end(bytes) > type_directory_end(bytes) {
        record_list_end(bytes)
    } else {
        type_directory_end(bytes)
    }
}

/// What the header of a container file says of its extent, or why the
/// bytes are no header.
pub open spec fn spec_declared_extent(header: Seq<u8>) -> Result<u64, DecodeError> {
    if header.len() < 4 {
        Err(DecodeError::Truncated)
    } else if !has_magic(header) {
        Err(DecodeError::BadMagic)
    } else if header.len() < HEADER_LEN {
        Err(DecodeError::Truncated)
    } else {
        Ok(spec_extent(header) as u64)
    }
}

/// Decoding looks at the extent of a container file and no further: a file
/// decodes as its first bytes up to the extent do, and a file that ends
/// before its extent is truncated.
pub proof fn lemma_decode_reads_extent(bytes: Seq<u8>)
    requires
        bytes.len() >= HEADER_LEN,
        has_magic(bytes),
    ensures
        bytes.len() < spec_extent(bytes) ==> spec_decode(bytes) == Err::<
            Hd2DataFileView,
            DecodeError,
        >(DecodeError::Truncated),
        bytes.len() >= spec_extent(bytes) ==> spec_decode(bytes) is Ok && spec_decode(
            bytes.take(spec_extent(bytes)),
        ) == spec_decode(bytes),
        forall|n: int|
            HEADER_LEN <= n <= bytes.len() ==> spec_declared_extent(#[trigger] bytes.take(n))
                == spec_declared_extent(bytes),
{
    let extent = spec_extent(bytes);
    assert forall|n: int| HEADER_LEN <= n <= bytes.len() implies spec_declared_extent(
        #[trigger] bytes.take(n),
    ) == spec_declared_extent(bytes) by {
        lemma_header_of_prefix(bytes, n);
    }
    if bytes.len() >= extent {
        let front = bytes.take(extent);
        lemma_header_of_prefix(bytes, extent);
        assert(type_directory(front) =~= type_directory(bytes));
        assert(record_list(front) =~= record_list(bytes));
    }
}

/// A prefix that holds the whole header declares what the file declares.
proof fn lemma_header_of_prefix(bytes: Seq<u8>, n: int)
    requires
        HEADER_LEN <= n <= bytes.len(),
    ensures
        has_magic(bytes.take(n)) == has_magic(bytes),
        declared_type_count(bytes.take(n)) == declared_type_count(bytes),
        declared_data_count(bytes.take(n)) == declared_data_count(bytes),
        spec_extent(bytes.take(n)) == spec_extent(bytes),
        forall|at: int|
            0 <= at && at + 80 <= n ==> #[trigger] record_at(bytes.take(n), at) == record_at(
                bytes,
                at,
            ),
        forall|at: int|
            0 <= at && at + 32 <= n ==> #[trigger] type_header_at(bytes.take(n), at)
                == type_header_at(bytes, at),
{
}

fn read_type_header(bytes: &[u8], at: usize) -> (header: TypeHeader)
    requires
        at + TYPE_HEADER_LEN <= bytes.len(),
    ensures
        header == type_header_at(bytes@, at as int),
{
    TypeHeader {
        id: DataType::from_tag(read_u64(bytes, at)),
        data_count: read_u64(bytes, at + 8),
        size: read_u32(bytes, at + 16),
        data_header_size: read_u32(bytes, at + 20),
    }
}

fn read_record(bytes: &[u8], at: usize) -> (record: DataRecord)
    requires
        at + RECORD_LEN <= bytes.len(),
    ensures
        record == record_at(bytes@, at as int),
{
    DataRecord {
        id: read_u64(bytes, at),
        type_id: DataType::from_tag(read_u64(bytes, at + 8)),
        offset: read_u64(bytes, at + 16),
        stream_offset: read_u32(bytes, at + 24),
        gpu_offset: read_u64(bytes, at + 32),
        data_size: read_u32(bytes, at + 56),
        stream_size: read_u32(bytes, at + 60),
        gpu_size: read_u32(bytes, at + 64),
        index: read_u32(bytes, at + 76),
    }
}

impl Hd2DataFile {
    /// Reads from the header of a container file how many leading bytes of
    /// the file hold its structures. `header` is the start of the file, its
    /// first 80 bytes at least.
    pub fn declared_extent(header: &[u8]) -> (result: Result<u64, DecodeError>)
        ensures
            result == spec_declared_extent(header@),
    {
        let len: usize = header.len();
        if len < 4 {
            return Err(DecodeError::Truncated);
        }
        if !(header[0] == 0x11 && header[1] == 0x00 && header[2] == 0x00 && header[3] == 0xF0) {
            return Err(DecodeError::BadMagic);
        }
        if len < HEADER_LEN {
            return Err(DecodeError::Truncated);
        }
        let type_count: u32 = read_u32(header, 4);
        let data_count: u32 = read_u32(header, 76);
        let types_end: u64 = HEADER_LEN as u64 + TYPE_HEADER_LEN as u64 * (type_count as u64);
        let records_start: u64 = types_end - RECORD_LIST_OVERLAP as u64;
        let records_end: u64 = records_start + RECORD_LEN as u64 * (data_count as u64);
        if records_end > types_end {
            Ok(records_end)
        } else {
            Ok(types_end)
        }
    }

    /// Decodes the bytes of one container file.
    pub fn decode(bytes: &[u8]) -> (result: Result<Hd2DataFile, DecodeError>)
        ensures
            match result {
                Ok(file) => spec_decode(bytes@) == Ok::<Hd2DataFileView, DecodeError>(file@),
                Err(error) => spec_decode(bytes@) == Err::<Hd2DataFileView, DecodeError>(error),
            },
            result matches Ok(file) ==> file.data_headers@.len() == file.data_count
                && file.type_headers@.len() == file.type_count,
    {
        let len: usize = bytes.len();
        if len < 4 {
            return Err(DecodeError::Truncated);
        }
        if !(bytes[0] == 0x11 && bytes[1] == 0x00 && bytes[2] == 0x00 && bytes[3] == 0xF0) {
            return Err(DecodeError::BadMagic);
        }
        if len < HEADER_LEN {
            return Err(DecodeError::Truncated);
        }
        let type_count: u32 = read_u32(bytes, 4);
        let data_count: u32 = read_u32(bytes, 76);
        let types_end: u64 = HEADER_LEN as u64 + TYPE_HEADER_LEN as u64 * (type_count as u64);
        if (len as u64) < types_end {
            return Err(DecodeError::Truncated);
        }
        let records_start: u64 = types_end - RECORD_LIST_OVERLAP as u64;
        let records_end: u64 = records_start + RECORD_LEN as u64 * (data_count as u64);
        if (len as u64) < records_end {
            return Err(DecodeError::Truncated);
        }
        let mut type_headers: Vec<TypeHeader> = Vec::new();
        let mut i: u32 = 0;
        while i < type_count
            invariant
                i <= type_count,
                len == bytes@.len(),
                HEADER_LEN + TYPE_HEADER_LEN * type_count <= len,
                type_headers@.len() == i,
                forall|k: int|
                    0 <= k < i ==> type_headers@[k] == type_header_at(
                        bytes@,
                        HEADER_LEN + TYPE_HEADER_LEN * k,
                    ),
            decreases type_count - i,
        {
            let at: usize = HEADER_LEN + TYPE_HEADER_LEN * (i as usize);
            type_headers.push(read_type_header(bytes, at));
            i += 1;
        }
        let start: usize = records_start as usize;
        let mut data_headers: Vec<DataRecord> = Vec::new();
        let mut j: u32 = 0;
        while j < data_count
            invariant
                j <= data_count,
                len == bytes@.len(),
                start == record_list_start(bytes@),
                start + RECORD_LEN * data_count <= len,
                data_headers@.len() == j,
                forall|k: int|
                    0 <= k < j ==> data_headers@[k] == record_at(bytes@, start + RECORD_LEN * k),
            decreases data_count - j,
        {
            let at: usize = start + RECORD_LEN * (j as usize);
            data_headers.push(read_record(bytes, at));
            j += 1;
        }
        let file = Hd2DataFile { type_count, data_count, type_headers, data_headers };
        assert(file.type_headers@ =~= type_directory(bytes@));
        assert(file.data_headers@ =~= record_list(bytes@));
        Ok(file)
    }
}

} // verus!
