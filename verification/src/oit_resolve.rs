use vstd::prelude::*;
use vstd::string::StringExecFns;

verus! {

/// A factor that a blend multiplies a source or destination value with.
#[derive(Clone, Copy, PartialEq, Eq, Structural, Debug)]
pub enum BlendMultiplierType {
    Zero,
    One,
    SrcColor,
    OneMinusSrcColor,
    SrcAlpha,
    OneMinusSrcAlpha,
    DstColor,
    OneMinusDstColor,
    DstAlpha,
    OneMinusDstAlpha,
    SrcAlphaSaturate,
}

/// How a blend combines the multiplied source and destination values.
#[derive(Clone, Copy, PartialEq, Eq, Structural, Debug)]
pub enum BlendEquationType {
    Add,
    Subtract,
    ReverseSubtract,
    Max,
    Min,
}

/// Whether, and how, a written color is blended with the one in the target.
#[derive(Clone, Copy, PartialEq, Eq, Structural, Debug)]
pub enum Blend {
    Enabled {
        source_rgb_multiplier: BlendMultiplierType,
        source_alpha_multiplier: BlendMultiplierType,
        destination_rgb_multiplier: BlendMultiplierType,
        destination_alpha_multiplier: BlendMultiplierType,
        rgb_equation: BlendEquationType,
        alpha_equation: BlendEquationType,
    },
    Disabled,
}

/// Which fragments pass the depth test.
#[derive(Clone, Copy, PartialEq, Eq, Structural, Debug)]
pub enum DepthTest {
    Never,
    Less,
    Equal,
    LessOrEqual,
    Greater,
    NotEqual,
    GreaterOrEqual,
    Always,
}

/// Which faces are not drawn.
#[derive(Clone, Copy, PartialEq, Eq, Structural, Debug)]
pub enum Cull {
    Nothing,
    Back,
    Front,
    FrontAndBack,
}

/// Which channels of the target are written.
#[derive(Clone, Copy, PartialEq, Eq, Structural, Debug)]
pub struct WriteMask {
    pub red: bool,
    pub green: bool,
    pub blue: bool,
    pub alpha: bool,
    pub depth: bool,
}

/// Writes the color channels and not the depth.
pub open spec fn color_write_mask() -> WriteMask {
    WriteMask { red: true, green: true, blue: true, alpha: true, depth: false }
}

/// The states that a draw call is made with, but for the line width, which
/// the renderer sets to one pixel for every effect.
#[derive(Clone, Copy, PartialEq, Eq, Structural, Debug)]
pub struct RenderStates {
    pub depth_test: DepthTest,
    pub cull: Cull,
    pub write_mask: WriteMask,
    pub blend: Blend,
}

/// Blending by the source's alpha: `source * alpha + target * (1 - alpha)`,
/// for the colors and for the alpha.
pub open spec fn alpha_blend() -> Blend {
    Blend::Enabled {
        source_rgb_multiplier: BlendMultiplierType::SrcAlpha,
        source_alpha_multiplier: BlendMultiplierType::SrcAlpha,
        destination_rgb_multiplier: BlendMultiplierType::OneMinusSrcAlpha,
        destination_alpha_multiplier: BlendMultiplierType::OneMinusSrcAlpha,
        rgb_equation: BlendEquationType::Add,
        alpha_equation: BlendEquationType::Add,
    }
}

/// Resolves the order-independent transparency (OIT) effect.
#[derive(Clone, Copy, Debug)]
pub struct OitResolveEffect {
    /// Which blending is used when the resolved color is written to the
    /// render target.
    pub blend: Blend,
}

impl Default for OitResolveEffect {
    /// Blends the resolved color over the target by its alpha.
    fn default() -> (r: Self)
        ensures
            r.blend == alpha_blend(),
    {
        OitResolveEffect {
            blend: Blend::Enabled {
                source_rgb_multiplier: BlendMultiplierType::SrcAlpha,
                source_alpha_multiplier: BlendMultiplierType::SrcAlpha,
                destination_rgb_multiplier: BlendMultiplierType::OneMinusSrcAlpha,
                destination_alpha_multiplier: BlendMultiplierType::OneMinusSrcAlpha,
                rgb_equation: BlendEquationType::Add,
                alpha_equation: BlendEquationType::Add,
            },
        }
    }
}

/// The characters of an optional shader part, none if it is missing.
pub open spec fn part_or_empty(part: Option<&str>) -> Seq<char> {
    match part {
        Some(s) => s@,
        None => Seq::empty(),
    }
}

impl OitResolveEffect {
    /// The fragment shader: the color texture's part, the depth texture's
    /// part and the effect's own source, on lines of their own; a missing
    /// texture contributes an empty part.
    pub fn fragment_shader_source(
        &self,
        color_texture_source: Option<&str>,
        depth_texture_source: Option<&str>,
        effect_source: &str,
    ) -> (r: String)
        ensures
            r@ == part_or_empty(color_texture_source) + seq!['\n'] + part_or_empty(
                depth_texture_source,
            ) + seq!['\n'] + effect_source@,
    {
        proof {
            reveal_strlit("\n");
        }
        let mut r = String::new();
        if let Some(c) = color_texture_source {
            r.append(c);
        }
        r.append("\n");
        if let Some(d) = depth_texture_source {
            r.append(d);
        }
        r.append("\n");
        r.append(effect_source);
        assert(r@ =~= part_or_empty(color_texture_source) + seq!['\n'] + part_or_empty(
            depth_texture_source,
        ) + seq!['\n'] + effect_source@);
        r
    }

    /// Every fragment is written, on both faces, to the color channels only,
    /// blended as this effect says.
    pub fn render_states(&self) -> (r: RenderStates)
        ensures
            r == (RenderStates {
                depth_test: DepthTest::Always,
                cull: Cull::Nothing,
                write_mask: color_write_mask(),
                blend: self.blend,
            }),
    {
        RenderStates {
            depth_test: DepthTest::Always,
            cull: Cull::Nothing,
            write_mask: WriteMask { red: true, green: true, blue: true, alpha: true, depth: false },
            blend: self.blend,
        }
    }
}

} // verus!
