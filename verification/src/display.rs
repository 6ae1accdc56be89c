use vstd::prelude::*;

verus! {

/// The colour scheme the user picked.
#[derive(Clone, Copy, Debug, PartialEq, Eq, Structural)]
pub enum ThemeMode {
    Light,
    Dark,
    System,
}

/// How the main window occupies the screen.
#[derive(Clone, Copy, Debug, PartialEq, Eq, Structural)]
pub enum WindowMode {
    Windowed,
    Fullscreen,
    BorderlessFullscreen,
}

/// What the window is to be set to.
#[derive(Clone, Copy, Debug, PartialEq, Eq, Structural)]
pub enum FullscreenTarget {
    /// An ordinary window.
    Windowed,
    /// Exclusive fullscreen in the video mode with this index.
    Exclusive(usize),
    /// Borderless fullscreen on the current monitor.
    Borderless,
}

/// Whether the dark scheme applies: the system's preference for `System`
/// (dark where the system says nothing), else the user's choice.
pub open spec fn spec_dark_mode(theme_mode: ThemeMode, system_dark: Option<bool>) -> bool {
    match theme_mode {
        ThemeMode::System => match system_dark {
            Some(dark) => dark,
            None => true,
        },
        ThemeMode::Dark => true,
        ThemeMode::Light => false,
    }
}

/// Decides between the dark and the light scheme; `system_dark` is what the
/// system reports, if anything.
pub fn resolve_dark_mode(theme_mode: ThemeMode, system_dark: Option<bool>) -> (dark: bool)
    ensures
        dark == spec_dark_mode(theme_mode, system_dark),
        theme_mode != ThemeMode::System ==> dark == (theme_mode == ThemeMode::Dark),
        theme_mode == ThemeMode::System ==> dark == (system_dark != Some(false)),
{
    match theme_mode {
        ThemeMode::System => match system_dark {
            Some(dark) => dark,
            None => true,
        },
        ThemeMode::Dark => true,
        ThemeMode::Light => false,
    }
}

/// The window state for a window mode: for exclusive fullscreen, the selected
/// video mode where it is one of the `video_mode_count` modes, else the first.
pub open spec fn spec_fullscreen_target(
    mode: WindowMode,
    selected_video_mode_index: Option<usize>,
    video_mode_count: usize,
) -> FullscreenTarget {
    match mode {
        WindowMode::Windowed => FullscreenTarget::Windowed,
        WindowMode::Fullscreen => match selected_video_mode_index {
            Some(i) if i < video_mode_count => FullscreenTarget::Exclusive(i),
            _ => FullscreenTarget::Exclusive(0),
        },
        WindowMode::BorderlessFullscreen => FullscreenTarget::Borderless,
    }
}

/// Chooses what the window is set to for `mode`. Exclusive fullscreen needs
/// at least one video mode.
pub fn fullscreen_target(
    mode: WindowMode,
    selected_video_mode_index: Option<usize>,
    video_mode_count: usize,
) -> (target: FullscreenTarget)
    requires
        mode == WindowMode::Fullscreen ==> video_mode_count > 0,
    ensures
        target == spec_fullscreen_target(mode, selected_video_mode_index, video_mode_count),
        target matches FullscreenTarget::Exclusive(i) ==> i < video_mode_count,
        mode == WindowMode::Windowed ==> target == FullscreenTarget::Windowed,
        mode == WindowMode::BorderlessFullscreen ==> target == FullscreenTarget::Borderless,
        mode == WindowMode::Fullscreen ==> target == FullscreenTarget::Exclusive(
            match selected_video_mode_index {
                Some(i) if i < video_mode_count => i,
                _ => 0,
            },
        ),
{
    match mode {
        WindowMode::Windowed => FullscreenTarget::Windowed,
        WindowMode::Fullscreen => {
            if let Some(selected) = selected_video_mode_index {
                if selected < video_mode_count {
                    return FullscreenTarget::Exclusive(selected);
                }
            }
            FullscreenTarget::Exclusive(0)
        },
        WindowMode::BorderlessFullscreen => FullscreenTarget::Borderless,
    }
}

/// The user's own choice of scheme wins over the system's; only `System`
/// asks the system, and an unanswered system means dark.
pub proof fn lemma_dark_mode_choice(theme_mode: ThemeMode, system_dark: Option<bool>)
    ensures
        theme_mode == ThemeMode::Dark ==> spec_dark_mode(theme_mode, system_dark),
        theme_mode == ThemeMode::Light ==> !spec_dark_mode(theme_mode, system_dark),
        theme_mode == ThemeMode::System ==> spec_dark_mode(theme_mode, system_dark) == (system_dark
            != Some(false)),
{
}

/// Only exclusive fullscreen looks at the selected video mode: a window stays
/// a window and borderless stays borderless whatever mode is selected, and
/// exclusive fullscreen always uses one of the available modes.
pub proof fn lemma_only_fullscreen_uses_video_modes(
    mode: WindowMode,
    selected_video_mode_index: Option<usize>,
    other_index: Option<usize>,
    video_mode_count: usize,
)
    requires
        video_mode_count > 0,
    ensures
        mode != WindowMode::Fullscreen ==> spec_fullscreen_target(
            mode,
            selected_video_mode_index,
            video_mode_count,
        ) == spec_fullscreen_target(mode, other_index, video_mode_count),
        mode == WindowMode::Windowed ==> spec_fullscreen_target(
            mode,
            selected_video_mode_index,
            video_mode_count,
        ) == FullscreenTarget::Windowed,
        mode == WindowMode::BorderlessFullscreen ==> spec_fullscreen_target(
            mode,
            selected_video_mode_index,
            video_mode_count,
        ) == FullscreenTarget::Borderless,
        mode == WindowMode::Fullscreen ==> (spec_fullscreen_target(
            mode,
            selected_video_mode_index,
            video_mode_count,
        ) matches FullscreenTarget::Exclusive(i) && i < video_mode_count),
{
}

} // verus!
