//! The parameters of a sampler, as the renderer states them.

use vstd::prelude::*;

verus! {

/// How a texture is addressed outside of its bounds.
#[derive(Debug, Hash, Eq, PartialEq, Copy, Clone)]
pub enum SamplerAddressMode {
    Repeat,
    MirroredRepeat,
    ClampToEdge,
    ClampToBorder,
    MirrorClampToEdge,
}

impl SamplerAddressMode {
    /// The API's code of the address mode.
    pub open spec fn code(self) -> i32 {
        match self {
            SamplerAddressMode::Repeat => 0,
            SamplerAddressMode::MirroredRepeat => 1,
            SamplerAddressMode::ClampToEdge => 2,
            SamplerAddressMode::ClampToBorder => 3,
            SamplerAddressMode::MirrorClampToEdge => 4,
        }
    }

    /// The place of the address mode among its kind.
    pub open spec fn ordinal(self) -> int {
        match self {
            SamplerAddressMode::Repeat => 0,
            SamplerAddressMode::MirroredRepeat => 1,
            SamplerAddressMode::ClampToEdge => 2,
            SamplerAddressMode::ClampToBorder => 3,
            SamplerAddressMode::MirrorClampToEdge => 4,
        }
    }

    /// Reads the code from the constant of `ash::vk::SamplerAddressMode`
    /// that has the variant's name, by `as_raw`.
    #[verifier::external_body]
    pub fn to_vk(&self) -> (code: i32)
        ensures
            code == self.code(),
    {
        match self {
            SamplerAddressMode::Repeat => ash::vk::SamplerAddressMode::REPEAT,
            SamplerAddressMode::MirroredRepeat => ash::vk::SamplerAddressMode::MIRRORED_REPEAT,
            SamplerAddressMode::ClampToBorder => ash::vk::SamplerAddressMode::CLAMP_TO_BORDER,
            SamplerAddressMode::MirrorClampToEdge => {
                ash::vk::SamplerAddressMode::MIRROR_CLAMP_TO_EDGE
            },
            SamplerAddressMode::ClampToEdge => ash::vk::SamplerAddressMode::CLAMP_TO_EDGE,
        }.as_raw()
    }

    fn index(&self) -> (i: u128)
        ensures
            i == self.ordinal(),
    {
        match self {
            SamplerAddressMode::Repeat => 0,
            SamplerAddressMode::MirroredRepeat => 1,
            SamplerAddressMode::ClampToEdge => 2,
            SamplerAddressMode::ClampToBorder => 3,
            SamplerAddressMode::MirrorClampToEdge => 4,
        }
    }
}

/// How texels are combined when a texture is magnified or minified.
#[derive(Debug, Hash, Eq, PartialEq, Copy, Clone)]
pub enum SamplerFilter {
    Nearest,
    Linear,
    Cubic,
}

impl SamplerFilter {
    /// The API's code of the filter.
    pub open spec fn code(self) -> i32 {
        match self {
            SamplerFilter::Nearest => 0,
            SamplerFilter::Linear => 1,
            SamplerFilter::Cubic => 1_000_015_000,
        }
    }

    /// The place of the filter among its kind.
    pub open spec fn ordinal(self) -> int {
        match self {
            SamplerFilter::Nearest => 0,
            SamplerFilter::Linear => 1,
            SamplerFilter::Cubic => 2,
        }
    }

    /// Reads the code from the constant of `ash::vk::Filter` that has the
    /// variant's name, `CUBIC_EXT` for the cubic filter, by `as_raw`.
    #[verifier::external_body]
    pub fn to_vk(&self) -> (code: i32)
        ensures
            code == self.code(),
    {
        match self {
            SamplerFilter::Nearest => ash::vk::Filter::NEAREST,
            SamplerFilter::Linear => ash::vk::Filter::LINEAR,
            SamplerFilter::Cubic => ash::vk::Filter::CUBIC_EXT,
        }.as_raw()
    }

    fn index(&self) -> (i: u128)
        ensures
            i == self.ordinal(),
    {
        match self {
            SamplerFilter::Nearest => 0,
            SamplerFilter::Linear => 1,
            SamplerFilter::Cubic => 2,
        }
    }
}

/// How a sampled value is compared with a reference value.
#[derive(Debug, Hash, Eq, PartialEq, Copy, Clone)]
pub enum CompareOp {
    Never,
    Less,
    Equal,
    LessOrEqual,
    Greater,
    NotEqual,
    GreaterOrEqual,
    Always,
}

impl CompareOp {
    /// The API's code of the comparison.
    pub open spec fn code(self) -> i32 {
        match self {
            CompareOp::Never => 0,
            CompareOp::Less => 1,
            CompareOp::Equal => 2,
            CompareOp::LessOrEqual => 3,
            CompareOp::Greater => 4,
            CompareOp::NotEqual => 5,
            CompareOp::GreaterOrEqual => 6,
            CompareOp::Always => 7,
        }
    }

    /// The place of the comparison among its kind.
    pub open spec fn ordinal(self) -> int {
        self.code() as int
    }

    /// Reads the code from the constant of `ash::vk::CompareOp` that has the
    /// variant's name, by `as_raw`.
    #[verifier::external_body]
    pub fn to_vk(&self) -> (code: i32)
        ensures
            code == self.code(),
    {
        match self {
            CompareOp::Never => ash::vk::CompareOp::NEVER,
            CompareOp::Less => ash::vk::CompareOp::LESS,
            CompareOp::Equal => ash::vk::CompareOp::EQUAL,
            CompareOp::LessOrEqual => ash::vk::CompareOp::LESS_OR_EQUAL,
            CompareOp::Greater => ash::vk::CompareOp::GREATER,
            CompareOp::NotEqual => ash::vk::CompareOp::NOT_EQUAL,
            CompareOp::GreaterOrEqual => ash::vk::CompareOp::GREATER_OR_EQUAL,
            CompareOp::Always => ash::vk::CompareOp::ALWAYS,
        }.as_raw()
    }

    fn index(&self) -> (i: u128)
        ensures
            i == self.ordinal(),
    {
        match self {
            CompareOp::Never => 0,
            CompareOp::Less => 1,
            CompareOp::Equal => 2,
            CompareOp::LessOrEqual => 3,
            CompareOp::Greater => 4,
            CompareOp::NotEqual => 5,
            CompareOp::GreaterOrEqual => 6,
            CompareOp::Always => 7,
        }
    }
}

/// The parameters of a sampler. Two samplers with the same parameters are
/// the same sampler to the renderer, so the parameters are the key under
/// which a sampler is cached.
#[derive(Debug, Hash, Eq, PartialEq, Copy, Clone)]
pub struct SamplerInfo {
    pub min_filter: SamplerFilter,
    pub mag_filter: SamplerFilter,
    pub addr_mode_u: SamplerAddressMode,
    pub addr_mode_v: SamplerAddressMode,
    pub addr_mode_w: SamplerAddressMode,
    pub compare_op: CompareOp,
    pub anisotropy: u32,
    pub mip_levels: u32,
    pub enable_compare: bool,
    pub enable_anisotropy: bool,
}

/// A number with the digit `digit` put in front of the digits of `rest`, in
/// a place that holds `radix` values.
pub open spec fn prepend(digit: int, radix: int, rest: int) -> int {
    digit + radix * rest
}

impl SamplerInfo {
    /// The parameters as one number: each field is a digit, in a place wide
    /// enough for every value of the field.
    pub open spec fn key(self) -> int {
        prepend(
            self.min_filter.ordinal(),
            3,
            prepend(
                self.mag_filter.ordinal(),
                3,
                prepend(
                    self.addr_mode_u.ordinal(),
                    5,
                    prepend(
                        self.addr_mode_v.ordinal(),
                        5,
                        prepend(
                            self.addr_mode_w.ordinal(),
                            5,
                            prepend(
                                self.compare_op.ordinal(),
                                8,
                                prepend(
                                    if self.enable_compare {
                                        1
                                    } else {
                                        0
                                    },
                                    2,
                                    prepend(
                                        if self.enable_anisotropy {
                                            1
                                        } else {
                                            0
                                        },
                                        2,
                                        prepend(
                                            self.anisotropy as int,
                                            0x1_0000_0000,
                                            self.mip_levels as int,
                                        ),
                                    ),
                                ),
                            ),
                        ),
                    ),
                ),
            ),
        )
    }

    /// The number under which the parameters are filed in a hash map.
    pub fn hash_key(&self) -> (key: u128)
        ensures
            key == self.key(),
    {
        let toggles: u128 = if self.enable_compare {
            1
        } else {
            0
        };
        let anisotropic: u128 = if self.enable_anisotropy {
            1
        } else {
            0
        };
        let levels: u128 = self.anisotropy as u128 + 0x1_0000_0000 * (self.mip_levels as u128);
        let numbers: u128 = toggles + 2 * (anisotropic + 2 * levels);
        let addressing: u128 = self.addr_mode_u.index() + 5 * (self.addr_mode_v.index() + 5 * (
        self.addr_mode_w.index() + 5 * (self.compare_op.index() + 8 * numbers)));
        self.min_filter.index() + 3 * (self.mag_filter.index() + 3 * addressing)
    }
}

/// A number that is read digit by digit gives back the digit and the rest.
proof fn lemma_prepend_unique(digit: int, rest: int, other_digit: int, other_rest: int, radix: int)
    requires
        radix > 0,
        0 <= digit < radix,
        0 <= other_digit < radix,
        prepend(digit, radix, rest) == prepend(other_digit, radix, other_rest),
    ensures
        digit == other_digit,
        rest == other_rest,
{
    assert(digit - other_digit == radix * (other_rest - rest)) by (nonlinear_arith)
        requires
            digit + radix * rest == other_digit + radix * other_rest,
    ;
    assert(other_rest - rest == 0) by (nonlinear_arith)
        requires
            digit - other_digit == radix * (other_rest - rest),
            -radix < digit - other_digit < radix,
            radix > 0,
    ;
}

/// Sampler parameters are told apart by their key: two sets of parameters
/// with the same key agree in every field.
pub proof fn lemma_key_injective(first: SamplerInfo, second: SamplerInfo)
    requires
        first.key() == second.key(),
    ensures
        first == second,
{
    let a = first;
    let b = second;
    let a8 = prepend(a.anisotropy as int, 0x1_0000_0000, a.mip_levels as int);
    let b8 = prepend(b.anisotropy as int, 0x1_0000_0000, b.mip_levels as int);
    let a7 = prepend(if a.enable_anisotropy { 1 } else { 0 }, 2, a8);
    let b7 = prepend(if b.enable_anisotropy { 1 } else { 0 }, 2, b8);
    let a6 = prepend(if a.enable_compare { 1 } else { 0 }, 2, a7);
    let b6 = prepend(if b.enable_compare { 1 } else { 0 }, 2, b7);
    let a5 = prepend(a.compare_op.ordinal(), 8, a6);
    let b5 = prepend(b.compare_op.ordinal(), 8, b6);
    let a4 = prepend(a.addr_mode_w.ordinal(), 5, a5);
    let b4 = prepend(b.addr_mode_w.ordinal(), 5, b5);
    let a3 = prepend(a.addr_mode_v.ordinal(), 5, a4);
    let b3 = prepend(b.addr_mode_v.ordinal(), 5, b4);
    let a2 = prepend(a.addr_mode_u.ordinal(), 5, a3);
    let b2 = prepend(b.addr_mode_u.ordinal(), 5, b3);
    let a1 = prepend(a.mag_filter.ordinal(), 3, a2);
    let b1 = prepend(b.mag_filter.ordinal(), 3, b2);
    lemma_prepend_unique(a.min_filter.ordinal(), a1, b.min_filter.ordinal(), b1, 3);
    lemma_prepend_unique(a.mag_filter.ordinal(), a2, b.mag_filter.ordinal(), b2, 3);
    lemma_prepend_unique(a.addr_mode_u.ordinal(), a3, b.addr_mode_u.ordinal(), b3, 5);
    lemma_prepend_unique(a.addr_mode_v.ordinal(), a4, b.addr_mode_v.ordinal(), b4, 5);
    lemma_prepend_unique(a.addr_mode_w.ordinal(), a5, b.addr_mode_w.ordinal(), b5, 5);
    lemma_prepend_unique(a.compare_op.ordinal(), a6, b.compare_op.ordinal(), b6, 8);
    lemma_prepend_unique(
        if a.enable_compare { 1 } else { 0 },
        a7,
        if b.enable_compare { 1 } else { 0 },
        b7,
        2,
    );
    lemma_prepend_unique(
        if a.enable_anisotropy { 1 } else { 0 },
        a8,
        if b.enable_anisotropy { 1 } else { 0 },
        b8,
        2,
    );
    lemma_prepend_unique(
        a.anisotropy as int,
        a.mip_levels as int,
        b.anisotropy as int,
        b.mip_levels as int,
        0x1_0000_0000,
    );
}

} // verus!
