//! The command tables and the value that a recognised command produces.
use vstd::prelude::*;

verus! {

/// A recognised motion or setting command.
///
/// Every recognised command yields this same value: the parameters that follow the
/// command on its line are not read, so every field stays unset.
#[derive(Debug)]
pub struct G1Move {
    /// Target X coordinate (Xnnn).
    pub x_target: Option<i64>,
    /// Target Y coordinate (Ynnn).
    pub y_target: Option<i64>,
    /// Target Z coordinate (Znnn).
    pub z_target: Option<i64>,
    /// Amount of filament to extrude (Ennn).
    pub amount_to_extrude: Option<i64>,
    /// Feed rate per minute (Fnnn).
    pub feedrate_per_minute: Option<i64>,
    /// Laser power.
    pub laser_power: Option<i64>,
}

impl G1Move {
    /// No parameter is set.
    pub open spec fn is_unset(&self) -> bool {
        &&& self.x_target is None
        &&& self.y_target is None
        &&& self.z_target is None
        &&& self.amount_to_extrude is None
        &&& self.feedrate_per_minute is None
        &&& self.laser_power is None
    }
}

impl Default for G1Move {
    fn default() -> (r: G1Move)
        ensures
            r.is_unset(),
    {
        G1Move {
            x_target: None,
            y_target: None,
            z_target: None,
            amount_to_extrude: None,
            feedrate_per_minute: None,
            laser_power: None,
        }
    }
}

/// The G codes that are accepted.
pub open spec fn supported_g_codes() -> Set<nat> {
    Set::new(
        |n: nat|
            n <= 4 || n == 10 || n == 11 || n == 21 || n == 28 || n == 29 || n == 80
            || (90 <= n && n <= 92),
    )
}

/// The M codes that are accepted.
pub open spec fn supported_m_codes() -> Set<nat> {
    Set::new(
        |n: nat|
            n == 73 || (82 <= n && n <= 84) || n == 104 || n == 106 || n == 107 || n == 109
            || n == 112 || n == 115 || n == 140 || n == 190 || n == 201
            || (203 <= n && n <= 205) || n == 221 || (500 <= n && n <= 502) || n == 600
            || n == 701 || n == 702 || n == 862 || n == 900,
    )
}

/// The G codes that are real machine commands but are not handled yet.
pub open spec fn unsupported_g_codes() -> Set<nat> {
    Set::new(
        |n: nat|
            n == 5 || n == 6 || n == 12 || (17 <= n && n <= 20) || n == 26 || n == 27
            || (30 <= n && n <= 35) || n == 38 || n == 42 || (53 <= n && n <= 61) || n == 76
            || n == 425,
    )
}

/// The M codes that are real machine commands but are not handled yet.
pub open spec fn unsupported_m_codes() -> Set<nat> {
    Set::new(
        |n: nat|
            n == 0 || n == 1 || (3 <= n && n <= 5) || (7 <= n && n <= 11)
            || (16 <= n && n <= 18) || (20 <= n && n <= 34) || n == 42 || n == 43 || n == 48
            || (75 <= n && n <= 78) || n == 85 || n == 92 || n == 100 || n == 110 || n == 111
            || n == 114 || (117 <= n && n <= 122) || (125 <= n && n <= 129) || n == 141
            || n == 143 || n == 145 || n == 149 || n == 150 || n == 154 || n == 155
            || (163 <= n && n <= 166) || n == 192 || n == 193 || n == 200 || n == 202
            || (206 <= n && n <= 212) || n == 218 || n == 220 || n == 226 || n == 240
            || n == 241 || n == 245 || n == 246 || (300 <= n && n <= 307) || n == 310
            || (320 <= n && n <= 323) || n == 340 || n == 350 || n == 351 || n == 355
            || (360 <= n && n <= 365) || n == 380 || n == 381 || (400 <= n && n <= 402)
            || (404 <= n && n <= 407) || n == 410 || n == 412 || (420 <= n && n <= 422)
            || n == 425 || n == 428 || n == 503 || n == 540 || (601 <= n && n <= 605)
            || n == 665 || n == 666 || n == 851 || n == 852 || n == 860 || n == 861
            || (863 <= n && n <= 869) || n == 871 || (906 <= n && n <= 918)
            || (920 <= n && n <= 999),
    )
}

/// Whether `code` is one of [`supported_g_codes`].
pub fn is_supported_g_code(code: u32) -> (r: bool)
    ensures
        r == supported_g_codes().contains(code as nat),
{
    code <= 4 || code == 10 || code == 11 || code == 21 || code == 28
    || code == 29 || code == 80 || (90 <= code && code <= 92)
}

/// Whether `code` is one of [`supported_m_codes`].
pub fn is_supported_m_code(code: u32) -> (r: bool)
    ensures
        r == supported_m_codes().contains(code as nat),
{
    code == 73 || (82 <= code && code <= 84) || code == 104 || code == 106 || code == 107
    || code == 109 || code == 112 || code == 115 || code == 140 || code == 190 || code == 201
    || (203 <= code && code <= 205) || code == 221 || (500 <= code && code <= 502)
    || code == 600 || code == 701 || code == 702 || code == 862 || code == 900
}

/// Whether `code` is one of [`unsupported_g_codes`].
pub fn is_unsupported_g_code(code: u32) -> (r: bool)
    ensures
        r == unsupported_g_codes().contains(code as nat),
{
    code == 5 || code == 6 || code == 12 || (17 <= code && code <= 20) || code == 26
    || code == 27 || (30 <= code && code <= 35) || code == 38 || code == 42
    || (53 <= code && code <= 61) || code == 76 || code == 425
}

/// Whether `code` is one of [`unsupported_m_codes`].
pub fn is_unsupported_m_code(code: u32) -> (r: bool)
    ensures
        r == unsupported_m_codes().contains(code as nat),
{
    code == 0 || code == 1 || (3 <= code && code <= 5) || (7 <= code && code <= 11)
    || (16 <= code && code <= 18) || (20 <= code && code <= 34) || code == 42 || code == 43
    || code == 48 || (75 <= code && code <= 78) || code == 85 || code == 92 || code == 100
    || code == 110 || code == 111 || code == 114 || (117 <= code && code <= 122)
    || (125 <= code && code <= 129) || code == 141 || code == 143 || code == 145 || code == 149
    || code == 150 || code == 154 || code == 155 || (163 <= code && code <= 166) || code == 192
    || code == 193 || code == 200 || code == 202 || (206 <= code && code <= 212) || code == 218
    || code == 220 || code == 226 || code == 240 || code == 241 || code == 245 || code == 246
    || (300 <= code && code <= 307) || code == 310 || (320 <= code && code <= 323)
    || code == 340 || code == 350 || code == 351 || code == 355 || (360 <= code && code <= 365)
    || code == 380 || code == 381 || (400 <= code && code <= 402)
    || (404 <= code && code <= 407) || code == 410 || code == 412
    || (420 <= code && code <= 422) || code == 425 || code == 428 || code == 503 || code == 540
    || (601 <= code && code <= 605) || code == 665 || code == 666 || code == 851 || code == 852
    || code == 860 || code == 861 || (863 <= code && code <= 869) || code == 871
    || (906 <= code && code <= 918) || (920 <= code && code <= 999)
}

} // verus!
