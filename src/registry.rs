use vstd::prelude::*;
use crate::gas::{Gas, PlanetaGaseoso};
use crate::ice::Ice;
use crate::moon::Moon;
use crate::red::PlanetaRojo;
use crate::rings::Rings;
use crate::shading::Vec3;

verus! {

/// The known shader variants.
#[derive(Copy, Clone, PartialEq, Eq, Debug, Structural)]
pub enum ShaderKind {
    Rocky,
    Gas,
    Ice,
    Moon,
    Rings,
    GasBlue,
    Red,
}

/// A constructed shader with its parameters. The rocky planet is shaded elsewhere and
/// carries none.
#[derive(Copy, Clone, PartialEq, Eq, Debug, Structural)]
pub enum Shader {
    Rocky,
    Gas(Gas),
    Ice(Ice),
    Moon(Moon),
    Rings(Rings),
    GasBlue(PlanetaGaseoso),
    Red(PlanetaRojo),
}

/// The shader of each kind with its default parameters.
pub open spec fn default_shader(kind: ShaderKind) -> Shader {
    match kind {
        ShaderKind::Rocky => Shader::Rocky,
        ShaderKind::Gas => Shader::Gas(
            Gas {
                main_a: Vec3 { x: 8500, y: 7000, z: 5500 },
                main_b: Vec3 { x: 6500, y: 5000, z: 4000 },
                band_freq: 60000,
            },
        ),
        ShaderKind::Ice => Shader::Ice(Ice { frost: Vec3 { x: 3000, y: 8500, z: 3500 }, rot_speed: 3500 }),
        ShaderKind::Moon => Shader::Moon(Moon { radius: 24000, scale: 3500 }),
        ShaderKind::Rings => Shader::Rings(Rings { inner: 7500, outer: 16000, tilt: 4000 }),
        ShaderKind::GasBlue => Shader::GasBlue(
            PlanetaGaseoso {
                main_a: Vec3 { x: 1000, y: 4000, z: 10000 },
                main_b: Vec3 { x: 0, y: 1000, z: 6000 },
                band_freq: 70000,
            },
        ),
        ShaderKind::Red => Shader::Red(
            PlanetaRojo {
                base_dark: Vec3 { x: 1800, y: 500, z: 400 },
                lava_tint: Vec3 { x: 8500, y: 2500, z: 1000 },
                rot_speed: 4500,
            },
        ),
    }
}

/// The kind a shader was built as.
pub open spec fn kind_of(s: Shader) -> ShaderKind {
    match s {
        Shader::Rocky => ShaderKind::Rocky,
        Shader::Gas(_) => ShaderKind::Gas,
        Shader::Ice(_) => ShaderKind::Ice,
        Shader::Moon(_) => ShaderKind::Moon,
        Shader::Rings(_) => ShaderKind::Rings,
        Shader::GasBlue(_) => ShaderKind::GasBlue,
        Shader::Red(_) => ShaderKind::Red,
    }
}

/// Diagnostic name of each shader; the rocky planet, shaded elsewhere, has none here.
pub open spec fn shader_name_spec(s: Shader) -> Option<Seq<char>> {
    match s {
        Shader::Rocky => None,
        Shader::Gas(_) => Some("GasGiant"@),
        Shader::Ice(_) => Some("IcePlanet_Green"@),
        Shader::Moon(_) => Some("MoonShader"@),
        Shader::Rings(_) => Some("RingsShader_Orange"@),
        Shader::GasBlue(_) => Some("PlanetaGaseoso_AzulVibrante"@),
        Shader::Red(_) => Some("PlanetaRojo"@),
    }
}

impl Shader {
    /// The variant's diagnostic name, `None` for the rocky planet.
    pub fn name(&self) -> (r: Option<&'static str>)
        ensures
            r is None <==> shader_name_spec(*self) is None,
            r is Some ==> shader_name_spec(*self) == Some(r->Some_0@),
    {
        match self {
            Shader::Rocky => None,
            Shader::Gas(g) => Some(g.name()),
            Shader::Ice(i) => Some(i.name()),
            Shader::Moon(m) => Some(m.name()),
            Shader::Rings(r) => Some(r.name()),
            Shader::GasBlue(g) => Some(g.name()),
            Shader::Red(r) => Some(r.name()),
        }
    }
}

/// Builds the shader of the given kind with its default parameters.
pub fn make_shader(kind: ShaderKind) -> (s: Shader)
    ensures
        s == default_shader(kind),
        kind_of(s) == kind,
{
    match kind {
        ShaderKind::Rocky => Shader::Rocky,
        ShaderKind::Gas => Shader::Gas(Gas::default()),
        ShaderKind::Ice => Shader::Ice(Ice::default()),
        ShaderKind::Moon => Shader::Moon(Moon::default()),
        ShaderKind::Rings => Shader::Rings(Rings::default()),
        ShaderKind::GasBlue => Shader::GasBlue(PlanetaGaseoso::default()),
        ShaderKind::Red => Shader::Red(PlanetaRojo::default()),
    }
}

/// Distinct kinds give distinct shaders.
pub proof fn lemma_make_shader_injective(a: ShaderKind, b: ShaderKind)
    requires
        default_shader(a) == default_shader(b),
    ensures
        a == b,
{
    assert(kind_of(default_shader(a)) == a);
    assert(kind_of(default_shader(b)) == b);
}

} // verus!
