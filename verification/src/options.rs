//! What is fixed at startup, and what one build is asked to do.

use crate::camera::{CameraState, Vector3};
use crate::geometry::Size2D;
use crate::ui::DemoUI;
use vstd::prelude::*;
use vstd::string::StrSliceExecFns;

verus! {

/// The font size, in pixels at scale factor one, that stem darkening assumes.
pub const APPROX_FONT_SIZE: u64 = 16;

/// The startup configuration.
#[derive(Clone, Debug)]
pub struct Options {
    /// The number of worker threads asked for, if any.
    pub jobs: Option<usize>,
    /// Whether to start in 3D.
    pub threed: bool,
    /// Where the scene is read from.
    pub input_path: String,
}

/// How the scene's objects are built. Chosen once, from the job count.
#[derive(Clone, Copy, Debug, PartialEq, Eq, Structural)]
pub enum BuildStrategy {
    Sequential,
    Parallel,
}

/// Drawable pixels per window point, as the ratio of the two widths.
#[derive(Clone, Copy, Debug, PartialEq, Eq, Structural)]
pub struct ScaleFactor {
    pub drawable_width: u32,
    pub window_width: u32,
}

/// A font size in pixels, as a ratio. A zero denominator stands for a size
/// that has no finite value.
#[derive(Clone, Copy, Debug, PartialEq, Eq, Structural)]
pub struct FontSize {
    pub numerator: u64,
    pub denominator: u32,
}

/// The camera of a 3D build. The projection is the perspective for the aspect
/// ratio of `window_size`, after the world scale, after the rotation by `yaw`
/// and `pitch`, after the translation by minus `position`.
#[derive(Clone, Copy, Debug, PartialEq, Eq, Structural)]
pub struct Perspective {
    pub position: Vector3,
    pub yaw: i64,
    pub pitch: i64,
    pub window_size: Size2D,
}

/// What one build is asked to do. Made afresh for each request and never
/// changed afterwards.
#[derive(Clone, Copy, Debug, PartialEq, Eq, Structural)]
pub struct BuildOptions {
    pub perspective: Option<Perspective>,
    pub stem_darkening_font_size: Option<FontSize>,
}

/// The transform a build applies to the scene.
#[derive(Clone, Copy, Debug, PartialEq, Eq, Structural)]
pub enum RenderTransform {
    /// The 2D identity.
    Transform2D,
    Perspective(Perspective),
}

/// How far a build thickens outlines.
#[derive(Clone, Copy, Debug, PartialEq, Eq, Structural)]
pub enum Dilation {
    /// The zero vector.
    Zero,
    /// The renderer's stem-darkening factor for each axis, times `font_size`.
    StemDarkening { font_size: FontSize },
}

/// Why the startup arguments were refused.
#[derive(Clone, Copy, Debug, PartialEq, Eq, Structural)]
pub enum OptionsError {
    /// The job count is not a decimal number that fits in `usize`.
    InvalidJobs,
}

/// The value of a decimal digit.
pub open spec fn digit_value(c: char) -> int {
    c as int - '0' as int
}

pub open spec fn is_digit(c: char) -> bool {
    '0' <= c <= '9'
}

/// The number that a sequence of decimal digits writes.
pub open spec fn decimal_value(digits: Seq<char>) -> int
    decreases digits.len(),
{
    if digits.len() == 0 {
        0
    } else {
        decimal_value(digits.drop_last()) * 10 + digit_value(digits.last())
    }
}

/// The digits of a job count: the text without a plus sign in front.
pub open spec fn unsigned_part(text: Seq<char>) -> Seq<char> {
    if text.len() > 0 && text[0] == '+' {
        text.skip(1)
    } else {
        text
    }
}

/// The job count that `text` writes: one or more decimal digits, with or
/// without a plus sign in front, for a number that fits in `usize`.
pub open spec fn parsed_jobs(text: Seq<char>) -> Option<usize> {
    let digits = unsigned_part(text);
    if digits.len() > 0 && (forall|i: int| 0 <= i < digits.len() ==> is_digit(#[trigger] digits[i]))
        && decimal_value(digits) <= usize::MAX {
        Some(decimal_value(digits) as usize)
    } else {
        None
    }
}

proof fn lemma_decimal_value_grows(digits: Seq<char>, end: int)
    requires
        0 <= end <= digits.len(),
        forall|i: int| 0 <= i < digits.len() ==> is_digit(#[trigger] digits[i]),
    ensures
        0 <= decimal_value(digits.take(end)) <= decimal_value(digits),
    decreases digits.len() - end,
{
    if end == digits.len() {
        assert(digits.take(end) == digits);
        lemma_decimal_value_is_natural(digits);
    } else {
        assert(digits.take(end + 1).drop_last() == digits.take(end));
        assert(is_digit(digits[end]));
        lemma_decimal_value_grows(digits, end + 1);
        lemma_decimal_value_is_natural(digits.take(end));
    }
}

proof fn lemma_decimal_value_is_natural(digits: Seq<char>)
    requires
        forall|i: int| 0 <= i < digits.len() ==> is_digit(#[trigger] digits[i]),
    ensures
        0 <= decimal_value(digits),
    decreases digits.len(),
{
    if digits.len() > 0 {
        assert(is_digit(digits.last()));
        lemma_decimal_value_is_natural(digits.drop_last());
    }
}

impl Options {
    /// Reads a job count. `None` where the text is not one.
    pub fn parse_jobs(text: &str) -> (jobs: Option<usize>)
        ensures
            jobs == parsed_jobs(text@),
    {
        let len: usize = text.unicode_len();
        let start: usize = if len > 0 && text.get_char(0) == '+' {
            1
        } else {
            0
        };
        if start == len {
            return None;
        }
        let ghost digits = unsigned_part(text@);
        assert(digits == text@.skip(start as int));
        let mut value: usize = 0;
        let mut i: usize = start;
        while i < len
            invariant
                start <= i <= len,
                len == text@.len(),
                digits == text@.skip(start as int),
                digits == unsigned_part(text@),
                forall|k: int| 0 <= k < i - start ==> is_digit(#[trigger] digits[k]),
                value == decimal_value(digits.take(i - start)),
            decreases len - i,
        {
            let c: char = text.get_char(i);
            assert(digits[i - start] == c);
            if !(c >= '0' && c <= '9') {
                return None;
            }
            let digit: usize = (c as u32 - '0' as u32) as usize;
            proof {
                assert(digits.take(i - start + 1).drop_last() == digits.take(i - start));
                if (forall|k: int| 0 <= k < digits.len() ==> is_digit(#[trigger] digits[k])) {
                    lemma_decimal_value_grows(digits, i - start + 1);
                }
            }
            let shifted: usize = match value.checked_mul(10) {
                Some(shifted) => shifted,
                None => {
                    return None;
                },
            };
            value = match shifted.checked_add(digit) {
                Some(sum) => sum,
                None => {
                    return None;
                },
            };
            i = i + 1;
        }
        assert(digits.take(len - start) == digits);
        Some(value)
    }

    /// The options that the startup arguments stand for: the job count as
    /// written, if one is given; whether 3D was asked for; the input path.
    pub fn from_arguments(jobs: Option<&str>, threed: bool, input_path: String) -> (options: Result<
        Options,
        OptionsError,
    >)
        ensures
            match jobs {
                None => options matches Ok(o) && o.jobs == None::<usize> && o.threed == threed
                    && o.input_path == input_path,
                Some(text) => match parsed_jobs(text@) {
                    Some(count) => options matches Ok(o) && o.jobs == Some(count) && o.threed
                        == threed && o.input_path == input_path,
                    None => options == Err::<Options, OptionsError>(OptionsError::InvalidJobs),
                },
            },
    {
        match jobs {
            None => Ok(Options { jobs: None, threed, input_path }),
            Some(text) => match Options::parse_jobs(text) {
                Some(count) => Ok(Options { jobs: Some(count), threed, input_path }),
                None => Err(OptionsError::InvalidJobs),
            },
        }
    }
}

impl BuildStrategy {
    /// One job means building the objects one after another; any other count,
    /// or none, means building them in parallel.
    pub open spec fn for_jobs_spec(jobs: Option<usize>) -> BuildStrategy {
        if jobs == Some(1usize) {
            BuildStrategy::Sequential
        } else {
            BuildStrategy::Parallel
        }
    }

    pub fn for_jobs(jobs: Option<usize>) -> (strategy: BuildStrategy)
        ensures
            strategy == BuildStrategy::for_jobs_spec(jobs),
    {
        match jobs {
            Some(1) => BuildStrategy::Sequential,
            _ => BuildStrategy::Parallel,
        }
    }
}

impl ScaleFactor {
    /// The whole part of the ratio, limited to `i32`. With a zero window
    /// width it is the largest `i32`, or zero where the drawable width is
    /// zero too.
    pub open spec fn whole_part(self) -> int {
        if self.window_width == 0 {
            if self.drawable_width == 0 {
                0
            } else {
                i32::MAX as int
            }
        } else if self.drawable_width / self.window_width > i32::MAX {
            i32::MAX as int
        } else {
            (self.drawable_width / self.window_width) as int
        }
    }

    /// The stem-darkening font size at this scale factor: `APPROX_FONT_SIZE`
    /// times the ratio.
    pub open spec fn font_size_spec(self) -> FontSize {
        FontSize {
            numerator: (APPROX_FONT_SIZE * self.drawable_width) as u64,
            denominator: self.window_width,
        }
    }

    pub fn new(drawable_width: u32, window_width: u32) -> (scale_factor: ScaleFactor)
        ensures
            scale_factor == (ScaleFactor { drawable_width, window_width }),
    {
        ScaleFactor { drawable_width, window_width }
    }

    pub fn to_i32(&self) -> (whole: i32)
        ensures
            whole == self.whole_part(),
    {
        if self.window_width == 0 {
            if self.drawable_width == 0 {
                0
            } else {
                i32::MAX
            }
        } else {
            let quotient: u32 = self.drawable_width / self.window_width;
            if quotient > 2147483647 {
                i32::MAX
            } else {
                quotient as i32
            }
        }
    }

    pub fn font_size(&self) -> (size: FontSize)
        ensures
            size == self.font_size_spec(),
    {
        FontSize {
            numerator: APPROX_FONT_SIZE * (self.drawable_width as u64),
            denominator: self.window_width,
        }
    }
}

impl BuildOptions {
    /// The options of a build: a perspective from the camera and the drawable
    /// size exactly when 3D is on, and a stem-darkening font size exactly when
    /// stem darkening is on.
    pub open spec fn assembled(
        ui: DemoUI,
        camera: CameraState,
        drawable_size: Size2D,
        scale_factor: ScaleFactor,
    ) -> BuildOptions {
        BuildOptions {
            perspective: if ui.threed_enabled {
                Some(
                    Perspective {
                        position: camera.position,
                        yaw: camera.yaw,
                        pitch: camera.pitch,
                        window_size: drawable_size,
                    },
                )
            } else {
                None
            },
            stem_darkening_font_size: if ui.stem_darkening_effect_enabled {
                Some(scale_factor.font_size_spec())
            } else {
                None
            },
        }
    }

    /// The transform these options stand for.
    pub open spec fn transform_spec(self) -> RenderTransform {
        match self.perspective {
            None => RenderTransform::Transform2D,
            Some(perspective) => RenderTransform::Perspective(perspective),
        }
    }

    /// The dilation these options stand for.
    pub open spec fn dilation_spec(self) -> Dilation {
        match self.stem_darkening_font_size {
            None => Dilation::Zero,
            Some(font_size) => Dilation::StemDarkening { font_size },
        }
    }

    /// Assembles the options of one build from the toggles, the camera, the
    /// drawable size and the scale factor. Reads only its arguments.
    pub fn assemble(
        ui: &DemoUI,
        camera: &CameraState,
        drawable_size: Size2D,
        scale_factor: ScaleFactor,
    ) -> (options: BuildOptions)
        ensures
            options == BuildOptions::assembled(*ui, *camera, drawable_size, scale_factor),
    {
        let perspective = if ui.threed_enabled {
            Some(
                Perspective {
                    position: camera.position,
                    yaw: camera.yaw,
                    pitch: camera.pitch,
                    window_size: drawable_size,
                },
            )
        } else {
            None
        };
        let stem_darkening_font_size = if ui.stem_darkening_effect_enabled {
            Some(scale_factor.font_size())
        } else {
            None
        };
        BuildOptions { perspective, stem_darkening_font_size }
    }

    pub fn transform(&self) -> (transform: RenderTransform)
        ensures
            transform == self.transform_spec(),
    {
        match self.perspective {
            None => RenderTransform::Transform2D,
            Some(perspective) => RenderTransform::Perspective(perspective),
        }
    }

    pub fn dilation(&self) -> (dilation: Dilation)
        ensures
            dilation == self.dilation_spec(),
    {
        match self.stem_darkening_font_size {
            None => Dilation::Zero,
            Some(font_size) => Dilation::StemDarkening { font_size },
        }
    }
}

/// Assembling twice from equal inputs gives equal options.
pub proof fn assemble_is_repeatable(
    ui_a: DemoUI,
    camera_a: CameraState,
    size_a: Size2D,
    scale_a: ScaleFactor,
    ui_b: DemoUI,
    camera_b: CameraState,
    size_b: Size2D,
    scale_b: ScaleFactor,
)
    requires
        ui_a == ui_b,
        camera_a == camera_b,
        size_a == size_b,
        scale_a == scale_b,
    ensures
        BuildOptions::assembled(ui_a, camera_a, size_a, scale_a) == BuildOptions::assembled(
            ui_b,
            camera_b,
            size_b,
            scale_b,
        ),
{
}

/// With stem darkening off the dilation is the zero vector, whatever the
/// scale factor, the camera and the other toggles are.
pub proof fn dilation_is_zero_without_stem_darkening(
    ui: DemoUI,
    camera: CameraState,
    drawable_size: Size2D,
    scale_factor: ScaleFactor,
)
    requires
        !ui.stem_darkening_effect_enabled,
    ensures
        BuildOptions::assembled(ui, camera, drawable_size, scale_factor).dilation_spec()
            == Dilation::Zero,
{
}

/// With 3D off the transform is the 2D identity, whatever the camera does.
pub proof fn transform_is_identity_without_threed(
    ui: DemoUI,
    camera: CameraState,
    drawable_size: Size2D,
    scale_factor: ScaleFactor,
)
    requires
        !ui.threed_enabled,
    ensures
        BuildOptions::assembled(ui, camera, drawable_size, scale_factor).transform_spec()
            == RenderTransform::Transform2D,
{
}

} // verus!
