//! Settings of the application and the rules that repair invalid ones.
use vstd::prelude::*;
use vstd::arithmetic::power2::{lemma2_to64, lemma_pow2_strictly_increases, pow2};

verus! {

/// The colour scheme of the interface.
#[derive(Debug, Clone, Copy, PartialEq, Eq, Structural)]
pub enum Theme {
    Dark,
    Light,
}

impl Default for Theme {
    fn default() -> (r: Self)
        ensures
            r == Theme::Dark,
    {
        Theme::Dark
    }
}

/// Interface settings.
#[derive(Debug, Clone, Copy, PartialEq, Eq, Structural)]
pub struct UIConfig {
    pub theme: Theme,
    pub show_tooltips: bool,
    pub auto_scroll_on_playback: bool,
    pub smooth_scrolling: bool,
}

impl Default for UIConfig {
    fn default() -> (r: Self)
        ensures
            r == (UIConfig {
                theme: Theme::Dark,
                show_tooltips: true,
                auto_scroll_on_playback: true,
                smooth_scrolling: true,
            }),
    {
        UIConfig {
            theme: Theme::Dark,
            show_tooltips: default_true(),
            auto_scroll_on_playback: default_true(),
            smooth_scrolling: default_true(),
        }
    }
}

/// Editing and saving behaviour.
#[derive(Debug, Clone, Copy, PartialEq, Eq, Structural)]
pub struct BehaviorConfig {
    pub auto_save: bool,
    pub auto_save_interval_minutes: u32,
    pub create_backup_on_save: bool,
    pub stop_on_track_selection: bool,
    pub follow_playhead: bool,
}

impl Default for BehaviorConfig {
    fn default() -> (r: Self)
        ensures
            r == (BehaviorConfig {
                auto_save: false,
                auto_save_interval_minutes: 5,
                create_backup_on_save: true,
                stop_on_track_selection: false,
                follow_playhead: true,
            }),
    {
        BehaviorConfig {
            auto_save: false,
            auto_save_interval_minutes: default_autosave_interval(),
            create_backup_on_save: default_true(),
            stop_on_track_selection: false,
            follow_playhead: default_true(),
        }
    }
}

/// The audio buffer size used when none is configured.
pub fn default_buffer_size() -> (r: usize)
    ensures
        r == 512,
{
    512
}

/// The value of a flag that is on unless configured.
pub fn default_true() -> (r: bool)
    ensures
        r,
{
    true
}

/// The auto-save interval, in minutes, used when none is configured.
pub fn default_autosave_interval() -> (r: u32)
    ensures
        r == 5,
{
    5
}

/// Whether a buffer size is usable: a power of two from 64 to 8192.
pub open spec fn valid_buffer_size(n: int) -> bool {
    n == 64 || n == 128 || n == 256 || n == 512 || n == 1024 || n == 2048 || n == 4096 || n == 8192
}

/// Whether an auto-save interval is usable: 1 to 120 minutes.
pub open spec fn valid_autosave_interval(m: int) -> bool {
    1 <= m <= 120
}

/// The buffer size a configuration keeps: itself when usable, else 512.
pub open spec fn kept_buffer_size(n: int) -> int {
    if valid_buffer_size(n) {
        n
    } else {
        512
    }
}

/// The buffer size a configuration keeps: itself when usable, else 512.
pub fn validated_buffer_size(n: usize) -> (r: usize)
    ensures
        r == kept_buffer_size(n as int),
{
    if n == 64 || n == 128 || n == 256 || n == 512 || n == 1024 || n == 2048 || n == 4096 || n
        == 8192 {
        n
    } else {
        default_buffer_size()
    }
}

/// The auto-save interval a configuration keeps: itself when usable, else 5.
pub fn validated_autosave_interval(m: u32) -> (r: u32)
    ensures
        r == (if valid_autosave_interval(m as int) {
            m
        } else {
            5
        }),
{
    if m == 0 || m > 120 {
        default_autosave_interval()
    } else {
        m
    }
}

/// Repairing a value gives a usable one, and repairing it again changes
/// nothing.
pub proof fn lemma_validation_is_idempotent(n: usize, m: u32)
    ensures
        valid_buffer_size((if valid_buffer_size(n as int) {
            n
        } else {
            512
        }) as int),
        valid_autosave_interval((if valid_autosave_interval(m as int) {
            m
        } else {
            5
        }) as int),
{
}

/// The buffer sizes a configuration keeps are exactly the powers of two
/// from 64 to 8192; any other size is replaced by the default 512, itself
/// such a power.
pub proof fn lemma_buffer_sizes_are_powers_of_two(n: usize)
    ensures
        valid_buffer_size(n as int) <==> (64 <= n <= 8192 && exists|k: nat| n == #[trigger] pow2(k)),
        (64 <= n <= 8192 && exists|k: nat| n == #[trigger] pow2(k)) ==> kept_buffer_size(n as int)
            == n,
        !(64 <= n <= 8192 && exists|k: nat| n == #[trigger] pow2(k)) ==> kept_buffer_size(n as int)
            == 512,
        512 == pow2(9),
{
    lemma2_to64();
    if valid_buffer_size(n as int) {
        if n == 64 {
            assert(n == pow2(6));
        } else if n == 128 {
            assert(n == pow2(7));
        } else if n == 256 {
            assert(n == pow2(8));
        } else if n == 512 {
            assert(n == pow2(9));
        } else if n == 1024 {
            assert(n == pow2(10));
        } else if n == 2048 {
            assert(n == pow2(11));
        } else if n == 4096 {
            assert(n == pow2(12));
        } else {
            assert(n == pow2(13));
        }
    }
    if 64 <= n <= 8192 && exists|k: nat| n == #[trigger] pow2(k) {
        let k = choose|k: nat| n == #[trigger] pow2(k);
        if k < 6 {
            lemma_pow2_strictly_increases(k, 6);
        } else if k > 13 {
            lemma_pow2_strictly_increases(13, k);
        }
        assert(6 <= k <= 13);
        assert(valid_buffer_size(n as int));
    }
}

} // verus!
