//! The material descriptor parser.
//!
//! A material file is a textual record naming colors, scalar surface
//! parameters, flags, an alpha mode, and up to five optional texture paths.
//! The host deserializes the text into a [`BlenderStandardMaterial`]; this
//! module resolves that record into the runtime material parameters and the
//! list of texture paths the material additionally depends on, each of which
//! becomes one more asynchronous load and a declared dependency edge.

use crate::assets::{Handle, LoadRequest};
use crate::scalars::ColorBits;
use crate::world::{EntityRecord, World};
use vstd::prelude::*;

verus! {

/// How the alpha channel is interpreted, as the record spells it.
#[derive(Clone, Copy, PartialEq, Eq, Structural, Debug)]
pub enum BlendAlphaMode {
    Opaque,
    /// Binary mask against the given threshold (IEEE-754 bits).
    Mask(u32),
    Blend,
}

/// How the alpha channel is interpreted, as the renderer consumes it.
#[derive(Clone, Copy, PartialEq, Eq, Structural, Debug)]
pub enum AlphaMode {
    Opaque,
    /// Binary mask against the given threshold (IEEE-754 bits).
    Mask(u32),
    Blend,
}

impl From<BlendAlphaMode> for AlphaMode {
    /// Each authored mode maps to its runtime namesake; the mask threshold
    /// copies through.
    fn from(v: BlendAlphaMode) -> (r: AlphaMode) {
        match v {
            BlendAlphaMode::Opaque => AlphaMode::Opaque,
            BlendAlphaMode::Mask(t) => AlphaMode::Mask(t),
            BlendAlphaMode::Blend => AlphaMode::Blend,
        }
    }
}

impl vstd::std_specs::convert::FromSpecImpl<BlendAlphaMode> for AlphaMode {
    open spec fn obeys_from_spec() -> bool {
        true
    }

    open spec fn from_spec(v: BlendAlphaMode) -> AlphaMode {
        match v {
            BlendAlphaMode::Opaque => AlphaMode::Opaque,
            BlendAlphaMode::Mask(t) => AlphaMode::Mask(t),
            BlendAlphaMode::Blend => AlphaMode::Blend,
        }
    }
}

/// A material record as the file spells it: parameters plus optional texture
/// paths. Scalars are raw IEEE-754 bits.
#[derive(PartialEq, Eq, Debug)]
pub struct BlenderStandardMaterial {
    /// Diffuse albedo for non-metals, specular for metals.
    pub base_color: ColorBits,
    pub base_color_texture: Option<String>,
    pub emissive: ColorBits,
    pub emissive_texture: Option<String>,
    /// Linear perceptual roughness.
    pub perceptual_roughness: u32,
    /// Dielectric (0.0) to pure metal (1.0).
    pub metallic: u32,
    pub metallic_roughness_texture: Option<String>,
    /// Specular intensity for non-metals.
    pub reflectance: u32,
    pub normal_map_texture: Option<String>,
    pub occlusion_texture: Option<String>,
    pub double_sided: bool,
    pub unlit: bool,
    pub alpha_mode: BlendAlphaMode,
}

/// The runtime material: the record's parameters with each named texture
/// replaced by a forward reference to it.
#[derive(PartialEq, Eq, Debug)]
pub struct StandardMaterialParams {
    pub base_color: ColorBits,
    pub base_color_texture: Option<Handle>,
    pub emissive: ColorBits,
    pub emissive_texture: Option<Handle>,
    pub perceptual_roughness: u32,
    pub metallic: u32,
    pub metallic_roughness_texture: Option<Handle>,
    pub reflectance: u32,
    pub normal_map_texture: Option<Handle>,
    pub occlusion_texture: Option<Handle>,
    pub double_sided: bool,
    pub unlit: bool,
    pub alpha_mode: AlphaMode,
}

/// The forward reference an optional texture path becomes.
pub open spec fn spec_texture_handle(p: Option<String>) -> Option<Handle> {
    match p {
        Some(s) => Some(Handle { path: s }),
        None => None,
    }
}

/// The runtime material a record resolves to: every parameter copied
/// through, every named texture turned into a handle under its own path.
pub open spec fn spec_resolve_material(m: BlenderStandardMaterial) -> StandardMaterialParams {
    StandardMaterialParams {
        base_color: m.base_color,
        base_color_texture: spec_texture_handle(m.base_color_texture),
        emissive: m.emissive,
        emissive_texture: spec_texture_handle(m.emissive_texture),
        perceptual_roughness: m.perceptual_roughness,
        metallic: m.metallic,
        metallic_roughness_texture: spec_texture_handle(m.metallic_roughness_texture),
        reflectance: m.reflectance,
        normal_map_texture: spec_texture_handle(m.normal_map_texture),
        occlusion_texture: spec_texture_handle(m.occlusion_texture),
        double_sided: m.double_sided,
        unlit: m.unlit,
        alpha_mode: (match m.alpha_mode {
            BlendAlphaMode::Opaque => AlphaMode::Opaque,
            BlendAlphaMode::Mask(t) => AlphaMode::Mask(t),
            BlendAlphaMode::Blend => AlphaMode::Blend,
        }),
    }
}

/// Appends the path of a texture that is present.
pub open spec fn spec_push_texture(acc: Seq<Seq<char>>, p: Option<String>) -> Seq<Seq<char>> {
    match p {
        Some(s) => acc.push(s@),
        None => acc,
    }
}

/// The texture paths a record depends on, in the fixed order base color,
/// emissive, metallic-roughness, normal map, occlusion; absent textures
/// contribute nothing.
pub open spec fn spec_texture_dependencies(m: BlenderStandardMaterial) -> Seq<Seq<char>> {
    spec_push_texture(
        spec_push_texture(
            spec_push_texture(
                spec_push_texture(
                    spec_push_texture(Seq::<Seq<char>>::empty(), m.base_color_texture),
                    m.emissive_texture,
                ),
                m.metallic_roughness_texture,
            ),
            m.normal_map_texture,
        ),
        m.occlusion_texture,
    )
}

/// Transient component: a path to a material asset to load.
#[derive(PartialEq, Eq, Debug)]
pub struct BlendMaterialLoader {
    pub path: String,
}

impl Default for BlendMaterialLoader {
    fn default() -> (r: Self)
        ensures
            r.path@ == Seq::<char>::empty(),
    {
        BlendMaterialLoader { path: String::new() }
    }
}

/// What the material loader pass does to one entity: the pending load, if
/// any, is removed and a forward reference under its path attached;
/// everything else is untouched.
pub open spec fn spec_material_loader_step(e: EntityRecord) -> EntityRecord {
    EntityRecord {
        material_loader: None,
        material_handle: (match e.material_loader {
            Some(l) => Some(Handle { path: l.path }),
            None => e.material_handle,
        }),
        ..e
    }
}

/// What the material loader pass does to the whole world.
pub open spec fn spec_material_loader_pass(es: Seq<EntityRecord>) -> Seq<EntityRecord> {
    Seq::new(es.len(), |i: int| spec_material_loader_step(es[i]))
}

/// The loads the material loader pass requests, scanning from entity `i` on.
pub open spec fn spec_material_requests(es: Seq<EntityRecord>, i: int) -> Seq<LoadRequest>
    decreases es.len() - i,
{
    if 0 <= i < es.len() {
        let rest = spec_material_requests(es, i + 1);
        match es[i].material_loader {
            Some(l) => seq![LoadRequest { entity: i as usize, path: l.path }] + rest,
            None => rest,
        }
    } else {
        Seq::empty()
    }
}

/// The material loader pass. For every entity that carries a
/// `BlendMaterialLoader`, the component is removed, an asynchronous load of
/// its path is requested, and the resulting forward reference attached at
/// once — nothing waits for the bytes. Entities without one, and every other
/// component, are untouched.
pub fn blend_material_loader(w: &mut World) -> (requests: Vec<LoadRequest>)
    ensures
        final(w).entities@ == spec_material_loader_pass(old(w).entities@),
        requests@ == spec_material_requests(old(w).entities@, 0),
{
    let ghost es0 = w.entities@;
    let n = w.entities.len();
    let mut out: Vec<EntityRecord> = Vec::with_capacity(n);
    let mut requests: Vec<LoadRequest> = Vec::new();
    let mut i: usize = 0;
    while i < n
        invariant
            i <= n,
            n == es0.len(),
            out@.len() == i,
            w.entities@ == es0.subrange(i as int, n as int),
            forall|j: int| 0 <= j < i ==> out@[j] == spec_material_loader_step(es0[j]),
            requests@ + spec_material_requests(es0, i as int) == spec_material_requests(es0, 0),
        decreases n - i,
    {
        let ghost reqs_before = requests@;
        let e = w.entities.remove(0);
        proof {
            assert(w.entities@ =~= es0.subrange((i + 1) as int, n as int));
        }
        let EntityRecord {
            transform,
            label,
            mesh_loader,
            material_loader,
            collection_loader,
            body_description,
            collider_description,
            mesh_handle,
            material_handle,
            body,
            collider,
        } = e;
        let new_handle: Option<Handle> = match material_loader {
            Some(l) => {
                let BlendMaterialLoader { path } = l;
                requests.push(LoadRequest { entity: i, path: path.clone() });
                proof {
                    assert(reqs_before + spec_material_requests(es0, i as int) =~= requests@
                        + spec_material_requests(es0, i + 1));
                }
                Some(Handle { path })
            },
            None => material_handle,
        };
        out.push(
            EntityRecord {
                transform,
                label,
                mesh_loader,
                material_loader: None,
                collection_loader,
                body_description,
                collider_description,
                mesh_handle,
                material_handle: new_handle,
                body,
                collider,
            },
        );
        i = i + 1;
    }
    w.entities = out;
    proof {
        assert(final(w).entities@ =~= spec_material_loader_pass(es0));
        assert(requests@ + spec_material_requests(es0, n as int) =~= requests@);
    }
    requests
}

/// Resolves material records into runtime parameters and their dependency
/// lists.
#[derive(PartialEq, Eq, Structural, Debug)]
pub struct BlendMaterialAssetLoader;

impl Default for BlendMaterialAssetLoader {
    fn default() -> (r: Self)
        ensures
            r == BlendMaterialAssetLoader,
    {
        BlendMaterialAssetLoader
    }
}

impl BlendMaterialAssetLoader {
    /// Resolves one material record: the runtime parameters, plus the paths
    /// of the textures it depends on, in declaration order.
    pub fn load(&self, m: BlenderStandardMaterial) -> (r: (StandardMaterialParams, Vec<String>))
        ensures
            r.0 == spec_resolve_material(m),
            r.1@.map_values(|p: String| p@) == spec_texture_dependencies(m),
    {
        let BlenderStandardMaterial {
            base_color,
            base_color_texture,
            emissive,
            emissive_texture,
            perceptual_roughness,
            metallic,
            metallic_roughness_texture,
            reflectance,
            normal_map_texture,
            occlusion_texture,
            double_sided,
            unlit,
            alpha_mode,
        } = m;
        let mut deps: Vec<String> = Vec::new();
        let base_color_texture = match base_color_texture {
            Some(p) => {
                deps.push(p.clone());
                Some(Handle { path: p })
            },
            None => None,
        };
        let emissive_texture = match emissive_texture {
            Some(p) => {
                deps.push(p.clone());
                Some(Handle { path: p })
            },
            None => None,
        };
        let metallic_roughness_texture = match metallic_roughness_texture {
            Some(p) => {
                deps.push(p.clone());
                Some(Handle { path: p })
            },
            None => None,
        };
        let normal_map_texture = match normal_map_texture {
            Some(p) => {
                deps.push(p.clone());
                Some(Handle { path: p })
            },
            None => None,
        };
        let occlusion_texture = match occlusion_texture {
            Some(p) => {
                deps.push(p.clone());
                Some(Handle { path: p })
            },
            None => None,
        };
        let params = StandardMaterialParams {
            base_color,
            base_color_texture,
            emissive,
            emissive_texture,
            perceptual_roughness,
            metallic,
            metallic_roughness_texture,
            reflectance,
            normal_map_texture,
            occlusion_texture,
            double_sided,
            unlit,
            alpha_mode: AlphaMode::from(alpha_mode),
        };
        proof {
            assert(deps@.map_values(|p: String| p@) =~= spec_texture_dependencies(m));
        }
        (params, deps)
    }

    /// The file extension this loader claims.
    pub fn extensions(&self) -> (r: String)
        ensures
            r@ == "material"@,
    {
        "material".to_owned()
    }
}

} // verus!
