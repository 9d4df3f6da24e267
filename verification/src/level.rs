//! The severity taxonomy: five ordered levels, each with a fixed
//! seven-character display label and a fixed display style.

use vstd::prelude::*;

verus! {

/// Log severities, ordered from least to most severe.
#[derive(Debug, Clone, Copy, PartialEq, Eq, Structural)]
pub enum LogLevel {
    DEBUG,
    INFO,
    WARN,
    ERROR,
    CRITICAL,
}

/// The display style of a log level: a foreground color, for `CRITICAL`
/// white text on a red background.
#[derive(Debug, Clone, Copy, PartialEq, Eq, Structural)]
pub enum LevelStyle {
    CyanFg,
    GreenFg,
    YellowFg,
    RedFg,
    WhiteOnRedBg,
}

/// The seven-character centered label of a level.
pub open spec fn spec_label(level: LogLevel) -> Seq<char> {
    match level {
        LogLevel::DEBUG => " DEBUG "@,
        LogLevel::INFO => " INFO  "@,
        LogLevel::WARN => " WARN  "@,
        LogLevel::ERROR => " ERROR "@,
        LogLevel::CRITICAL => " CRIT  "@,
    }
}

/// The style a level is rendered with.
pub open spec fn spec_style(level: LogLevel) -> LevelStyle {
    match level {
        LogLevel::DEBUG => LevelStyle::CyanFg,
        LogLevel::INFO => LevelStyle::GreenFg,
        LogLevel::WARN => LevelStyle::YellowFg,
        LogLevel::ERROR => LevelStyle::RedFg,
        LogLevel::CRITICAL => LevelStyle::WhiteOnRedBg,
    }
}

impl LogLevel {
    /// The fixed seven-character centered label of this level.
    pub fn label(&self) -> (r: &'static str)
        ensures
            r@ == spec_label(*self),
    {
        match self {
            LogLevel::DEBUG => " DEBUG ",
            LogLevel::INFO => " INFO  ",
            LogLevel::WARN => " WARN  ",
            LogLevel::ERROR => " ERROR ",
            LogLevel::CRITICAL => " CRIT  ",
        }
    }

    /// The fixed style of this level. The mapping is total: every level has
    /// exactly one style, with no default arm to fall through to.
    pub fn style(&self) -> (r: LevelStyle)
        ensures
            r == spec_style(*self),
    {
        match self {
            LogLevel::DEBUG => LevelStyle::CyanFg,
            LogLevel::INFO => LevelStyle::GreenFg,
            LogLevel::WARN => LevelStyle::YellowFg,
            LogLevel::ERROR => LevelStyle::RedFg,
            LogLevel::CRITICAL => LevelStyle::WhiteOnRedBg,
        }
    }
}

/// Law: the rendering of levels is injective. Two distinct levels always
/// carry distinct labels and distinct styles, so every level is visually
/// distinguishable.
pub proof fn lemma_level_rendering_injective(a: LogLevel, b: LogLevel)
    requires
        a != b,
    ensures
        spec_label(a) != spec_label(b),
        spec_style(a) != spec_style(b),
{
    reveal_strlit(" DEBUG ");
    reveal_strlit(" INFO  ");
    reveal_strlit(" WARN  ");
    reveal_strlit(" ERROR ");
    reveal_strlit(" CRIT  ");
    assert(spec_label(a)[1] != spec_label(b)[1]);
}

} // verus!
