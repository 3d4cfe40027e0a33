//! The watch face's content: time and date text taken from the calendar,
//! battery and charge icons, and the flags that say which regions of the
//! screen must be redrawn.
use vstd::prelude::*;

use chrono::{Datelike, Timelike};

use crate::fonts::{black, red, white, Color, FontFace, FontStyles, TextStyle};
use crate::system_time::DateTime;

verus! {

/// Regions of the watch face to redraw, as bits.
#[derive(Clone, Copy, Debug, PartialEq, Eq, Structural)]
pub struct Redraw {
    pub bits: u8,
}

/// Every region, and a forced refresh of the texts.
pub const REDRAW_ALL: u8 = 0xFF;

/// The time text.
pub const REDRAW_TIME: u8 = 0x01;

/// The date text.
pub const REDRAW_DATE: u8 = 0x02;

/// The battery icon.
pub const REDRAW_BATTERY: u8 = 0x04;

/// The charge plug icon.
pub const REDRAW_CHARGE_PLUG: u8 = 0x08;

/// Rebuild the texts even if the calendar values did not change.
pub const REDRAW_FORCE_UPDATE: u8 = 0x80;

impl Redraw {
    /// No region.
    pub fn empty() -> (r: Self)
        ensures
            r.bits == 0,
    {
        Redraw { bits: 0 }
    }

    /// Clears every flag.
    pub fn clear(&mut self)
        ensures
            final(self).bits == 0,
    {
        self.bits = 0;
    }

    /// Sets every flag.
    pub fn set_all(&mut self)
        ensures
            final(self).bits == REDRAW_ALL,
    {
        self.bits = REDRAW_ALL;
    }

    /// Whether every flag of `flags` is set.
    pub fn contains(&self, flags: u8) -> (r: bool)
        ensures
            r == (self.bits & flags == flags),
    {
        self.bits & flags == flags
    }

    /// Sets the flags of `flags`.
    pub fn insert(&mut self, flags: u8)
        ensures
            final(self).bits == old(self).bits | flags,
    {
        self.bits = self.bits | flags;
    }
}

/// An icon of the watch face's icon font.
#[derive(Clone, Copy, Debug, PartialEq, Eq, Structural, Hash)]
pub enum Icon {
    Plug,
    BatteryFull,
    BatteryEmpty,
    BatteryOneQuarter,
    BatteryHalf,
    BatteryThreeQuarter,
}

/// The code point of each icon in the icon font.
pub open spec fn icon_char(i: Icon) -> char {
    match i {
        Icon::Plug => '\u{F1E6}',
        Icon::BatteryFull => '\u{F240}',
        Icon::BatteryEmpty => '\u{F244}',
        Icon::BatteryOneQuarter => '\u{F243}',
        Icon::BatteryHalf => '\u{F242}',
        Icon::BatteryThreeQuarter => '\u{F241}',
    }
}

/// The icon as text: its one code point.
pub open spec fn icon_text(i: Icon) -> Seq<char> {
    seq![icon_char(i)]
}

/// The battery icon for a remaining charge: the nearest quarter.
pub open spec fn battery_icon_of(percent: u8) -> Icon {
    if percent < 13 {
        Icon::BatteryEmpty
    } else if percent < 38 {
        Icon::BatteryOneQuarter
    } else if percent < 63 {
        Icon::BatteryHalf
    } else if percent < 88 {
        Icon::BatteryThreeQuarter
    } else {
        Icon::BatteryFull
    }
}

impl Icon {
    /// The icon as text in the icon font.
    pub fn as_text(self) -> (r: &'static str)
        ensures
            r@ == icon_text(self),
    {
        proof {
            reveal_strlit("\u{F1E6}");
            reveal_strlit("\u{F240}");
            reveal_strlit("\u{F244}");
            reveal_strlit("\u{F243}");
            reveal_strlit("\u{F242}");
            reveal_strlit("\u{F241}");
        }
        match self {
            Icon::Plug => "\u{F1E6}",
            Icon::BatteryFull => "\u{F240}",
            Icon::BatteryEmpty => "\u{F244}",
            Icon::BatteryOneQuarter => "\u{F243}",
            Icon::BatteryHalf => "\u{F242}",
            Icon::BatteryThreeQuarter => "\u{F241}",
        }
    }

    /// The icon's code point.
    pub fn as_char(self) -> (r: char)
        ensures
            r == icon_char(self),
    {
        match self {
            Icon::Plug => '\u{F1E6}',
            Icon::BatteryFull => '\u{F240}',
            Icon::BatteryEmpty => '\u{F244}',
            Icon::BatteryOneQuarter => '\u{F243}',
            Icon::BatteryHalf => '\u{F242}',
            Icon::BatteryThreeQuarter => '\u{F241}',
        }
    }

    /// The battery icon for a remaining charge in percent.
    pub fn battery_icon_from_percent_remaining(percent: u8) -> (r: Icon)
        ensures
            r == battery_icon_of(percent),
    {
        if percent < 13 {
            Icon::BatteryEmpty
        } else if percent < 38 {
            Icon::BatteryOneQuarter
        } else if percent < 63 {
            Icon::BatteryHalf
        } else if percent < 88 {
            Icon::BatteryThreeQuarter
        } else {
            Icon::BatteryFull
        }
    }
}

/// A date-time broken down in the proleptic Gregorian calendar (UTC):
/// month from 0, day of month from 1, weekday from Monday = 0.
#[derive(Clone, Copy, Debug, PartialEq, Eq, Structural)]
pub struct CivilTime {
    pub year: i32,
    pub month0: u32,
    pub day: u32,
    pub weekday: u32,
    pub hour: u32,
    pub minute: u32,
}

impl CivilTime {
    /// Every field within its calendar range.
    pub open spec fn wf(&self) -> bool {
        &&& self.month0 < 12
        &&& 1 <= self.day <= 31
        &&& self.weekday < 7
        &&& self.hour < 24
        &&& self.minute < 60
    }
}

/// The calendar breakdown of a Unix timestamp, where the calendar reaches it.
pub uninterp spec fn civil_of(secs: i64) -> Option<CivilTime>;

/// Relies on chrono's `DateTime::from_timestamp` (with no sub-second part)
/// and the `Datelike` / `Timelike` accessors of the resulting UTC date-time:
/// the result depends on the timestamp alone, and the accessors return a
/// month from 0 to 11, a day from 1 to 31, a weekday from Monday = 0 to 6,
/// an hour from 0 to 23 and a minute from 0 to 59. `from_timestamp` fails
/// only outside the years chrono represents (up to 262142), far beyond
/// 2^40 seconds after the epoch.
#[verifier::external_body]
fn civil_time(secs: i64) -> (r: Option<CivilTime>)
    ensures
        r == civil_of(secs),
        r is Some ==> r.unwrap().wf(),
        0 <= secs < 0x100_0000_0000 ==> r is Some,
{
    match chrono::DateTime::from_timestamp(secs, 0) {
        Some(dt) => {
            let n = dt.naive_utc();
            Some(CivilTime {
                year: n.year(),
                month0: n.month0(),
                day: n.day(),
                weekday: n.weekday().num_days_from_monday(),
                hour: n.hour(),
                minute: n.minute(),
            })
        },
        None => None,
    }
}

/// The decimal digit `d` (below 10).
pub open spec fn digit(d: int) -> char {
    seq!['0', '1', '2', '3', '4', '5', '6', '7', '8', '9'][d]
}

/// `n` in decimal, without leading zeros.
pub open spec fn decimal(n: nat) -> Seq<char>
    decreases n,
{
    if n < 10 {
        seq![digit(n as int)]
    } else {
        decimal(n / 10).push(digit((n % 10) as int))
    }
}

/// `n` in decimal, with a minus sign when negative.
pub open spec fn signed_decimal(n: int) -> Seq<char> {
    if n < 0 {
        seq!['-'] + decimal((-n) as nat)
    } else {
        decimal(n as nat)
    }
}

/// `n` (below 100) as two decimal digits.
pub open spec fn two_digits(n: int) -> Seq<char> {
    seq![digit(n / 10), digit(n % 10)]
}

/// Three-letter English name of a weekday from Monday = 0.
pub open spec fn weekday_name(w: u32) -> Seq<char> {
    seq![
        seq!['M', 'o', 'n'],
        seq!['T', 'u', 'e'],
        seq!['W', 'e', 'd'],
        seq!['T', 'h', 'u'],
        seq!['F', 'r', 'i'],
        seq!['S', 'a', 't'],
        seq!['S', 'u', 'n'],
    ][w as int]
}

/// Three-letter upper-case English name of a month from January = 0.
pub open spec fn month_name(m: u32) -> Seq<char> {
    seq![
        seq!['J', 'A', 'N'],
        seq!['F', 'E', 'B'],
        seq!['M', 'A', 'R'],
        seq!['A', 'P', 'R'],
        seq!['M', 'A', 'Y'],
        seq!['J', 'U', 'N'],
        seq!['J', 'U', 'L'],
        seq!['A', 'U', 'G'],
        seq!['S', 'E', 'P'],
        seq!['O', 'C', 'T'],
        seq!['N', 'O', 'V'],
        seq!['D', 'E', 'C'],
    ][m as int]
}

/// The hour on a 12-hour clock, 12 for noon and midnight.
pub open spec fn hour12_of(hour: u32) -> int {
    if hour % 12 == 0 {
        12
    } else {
        (hour % 12) as int
    }
}

/// The date text: weekday, two-digit day, month, year ("Thu 01 JAN 1970").
pub open spec fn date_text_of(c: CivilTime) -> Seq<char> {
    weekday_name(c.weekday) + seq![' '] + two_digits(c.day as int) + seq![' '] + month_name(
        c.month0,
    ) + seq![' '] + signed_decimal(c.year as int)
}

/// The time text on a 12-hour clock ("12:00").
pub open spec fn time_text_of(c: CivilTime) -> Seq<char> {
    two_digits(hour12_of(c.hour)) + seq![':'] + two_digits(c.minute as int)
}

/// Whether two date-times fall on different days.
pub open spec fn date_differs(a: CivilTime, b: CivilTime) -> bool {
    a.year != b.year || a.month0 != b.month0 || a.day != b.day
}

/// Whether two date-times show different times on a 12-hour clock.
pub open spec fn time_differs(a: CivilTime, b: CivilTime) -> bool {
    hour12_of(a.hour) != hour12_of(b.hour) || (a.hour >= 12) != (b.hour >= 12) || a.minute
        != b.minute
}

/// The text regions to redraw when the face, with redraw flags `bits` and
/// showing `shown`, is brought up to the calendar value `c` (none when there
/// is no calendar value).
pub open spec fn text_redraw(bits: u8, shown: CivilTime, c: Option<CivilTime>) -> u8 {
    match c {
        None => 0,
        Some(c) => {
            let force = bits & REDRAW_FORCE_UPDATE == REDRAW_FORCE_UPDATE;
            (if force || date_differs(shown, c) {
                REDRAW_DATE
            } else {
                0
            }) | (if force || time_differs(shown, c) {
                REDRAW_TIME
            } else {
                0
            })
        },
    }
}

fn digit_char(d: u32) -> (r: char)
    requires
        d < 10,
    ensures
        r == digit(d as int),
{
    match d {
        0 => '0',
        1 => '1',
        2 => '2',
        3 => '3',
        4 => '4',
        5 => '5',
        6 => '6',
        7 => '7',
        8 => '8',
        _ => '9',
    }
}

/// Appends `n` in decimal.
fn push_decimal(v: &mut Vec<char>, n: u32)
    ensures
        final(v)@ == old(v)@ + decimal(n as nat),
    decreases n,
{
    if n >= 10 {
        push_decimal(v, n / 10);
    }
    v.push(digit_char(n % 10));
    proof {
        if n < 10 {
            assert(n % 10 == n);
        }
    }
}

/// Appends `n` (below 100) as two digits.
fn push_two_digits(v: &mut Vec<char>, n: u32)
    requires
        n < 100,
    ensures
        final(v)@ == old(v)@ + two_digits(n as int),
{
    v.push(digit_char(n / 10));
    v.push(digit_char(n % 10));
}

/// Appends three characters.
fn push_three(v: &mut Vec<char>, a: char, b: char, c: char)
    ensures
        final(v)@ == old(v)@ + seq![a, b, c],
{
    v.push(a);
    v.push(b);
    v.push(c);
}

/// Appends the name of weekday `w`.
fn push_weekday(v: &mut Vec<char>, w: u32)
    requires
        w < 7,
    ensures
        final(v)@ == old(v)@ + weekday_name(w),
{
    match w {
        0 => push_three(v, 'M', 'o', 'n'),
        1 => push_three(v, 'T', 'u', 'e'),
        2 => push_three(v, 'W', 'e', 'd'),
        3 => push_three(v, 'T', 'h', 'u'),
        4 => push_three(v, 'F', 'r', 'i'),
        5 => push_three(v, 'S', 'a', 't'),
        _ => push_three(v, 'S', 'u', 'n'),
    }
}

/// Appends the name of month `m`.
fn push_month(v: &mut Vec<char>, m: u32)
    requires
        m < 12,
    ensures
        final(v)@ == old(v)@ + month_name(m),
{
    match m {
        0 => push_three(v, 'J', 'A', 'N'),
        1 => push_three(v, 'F', 'E', 'B'),
        2 => push_three(v, 'M', 'A', 'R'),
        3 => push_three(v, 'A', 'P', 'R'),
        4 => push_three(v, 'M', 'A', 'Y'),
        5 => push_three(v, 'J', 'U', 'N'),
        6 => push_three(v, 'J', 'U', 'L'),
        7 => push_three(v, 'A', 'U', 'G'),
        8 => push_three(v, 'S', 'E', 'P'),
        9 => push_three(v, 'O', 'C', 'T'),
        10 => push_three(v, 'N', 'O', 'V'),
        _ => push_three(v, 'D', 'E', 'C'),
    }
}

/// Appends `n` in decimal with its sign.
fn push_signed_decimal(v: &mut Vec<char>, n: i32)
    ensures
        final(v)@ == old(v)@ + signed_decimal(n as int),
{
    if n < 0 {
        v.push('-');
        let mag: u32 = (0i64 - n as i64) as u32;
        push_decimal(v, mag);
        assert(v@ =~= old(v)@ + signed_decimal(n as int));
    } else {
        push_decimal(v, n as u32);
    }
}

/// The date text of a calendar date-time.
pub fn date_text(c: &CivilTime) -> (r: Vec<char>)
    requires
        c.wf(),
    ensures
        r@ == date_text_of(*c),
{
    let mut v: Vec<char> = Vec::new();
    push_weekday(&mut v, c.weekday);
    v.push(' ');
    push_two_digits(&mut v, c.day);
    v.push(' ');
    let ghost a = v@;
    push_month(&mut v, c.month0);
    v.push(' ');
    let ghost b = v@;
    push_signed_decimal(&mut v, c.year);
    assert(a =~= weekday_name(c.weekday) + seq![' '] + two_digits(c.day as int) + seq![' ']);
    assert(b =~= a + month_name(c.month0) + seq![' ']);
    assert(v@ =~= date_text_of(*c));
    v
}

/// The time text of a calendar date-time.
pub fn time_text(c: &CivilTime) -> (r: Vec<char>)
    requires
        c.wf(),
    ensures
        r@ == time_text_of(*c),
{
    let mut v: Vec<char> = Vec::new();
    let h = c.hour % 12;
    let h12 = if h == 0 {
        12
    } else {
        h
    };
    push_two_digits(&mut v, h12);
    v.push(':');
    push_two_digits(&mut v, c.minute);
    assert(v@ =~= time_text_of(*c));
    v
}

/// One text to draw: its characters, the anchor point, the style, and
/// whether the text is centred on the anchor (otherwise it starts there),
/// both on the alphabetic baseline.
#[derive(Debug)]
pub struct DrawCommand {
    pub text: Vec<char>,
    pub x: i32,
    pub y: i32,
    pub style: TextStyle,
    pub centered: bool,
}

/// A draw command as plain values.
pub type DrawCommandView = (Seq<char>, i32, i32, TextStyle, bool);

impl DrawCommand {
    /// The command as plain values.
    pub open spec fn view(&self) -> DrawCommandView {
        (self.text@, self.x, self.y, self.style, self.centered)
    }
}

/// Whether region `flag` is marked in `bits`.
pub open spec fn marked(bits: u8, flag: u8) -> bool {
    bits & flag == flag
}

/// What drawing the face draws, in order: the time centred mid-screen,
/// the date centred 50 pixels lower, both over the background; the battery
/// icon top right, red when empty and white otherwise, over the
/// background; the charge plug left of it, red while charging and in the
/// background colour otherwise. A region is drawn only when it is marked
/// for redraw.
pub open spec fn draw_plan(w: &WatchFace, fonts: FontStyles) -> Seq<DrawCommandView> {
    time_part(w, fonts) + date_part(w, fonts) + battery_part(w) + plug_part(w)
}

/// The time text, if marked.
pub open spec fn time_part(w: &WatchFace, fonts: FontStyles) -> Seq<DrawCommandView> {
    if marked(w.redraw.bits, REDRAW_TIME) {
        seq![(w.time_text@, 120i32, 120i32, TextStyle {
            face: fonts.watchface_time.face,
            text_color: fonts.watchface_time.text_color,
            background: Some(black()),
        }, true)]
    } else {
        Seq::empty()
    }
}

/// The date text, if marked.
pub open spec fn date_part(w: &WatchFace, fonts: FontStyles) -> Seq<DrawCommandView> {
    if marked(w.redraw.bits, REDRAW_DATE) {
        seq![(w.date_text@, 120i32, 170i32, TextStyle {
            face: fonts.watchface_date.face,
            text_color: fonts.watchface_date.text_color,
            background: Some(black()),
        }, true)]
    } else {
        Seq::empty()
    }
}

/// The battery icon, if marked.
pub open spec fn battery_part(w: &WatchFace) -> Seq<DrawCommandView> {
    if marked(w.redraw.bits, REDRAW_BATTERY) {
        seq![(icon_text(w.battery_icon), 210i32, 20i32, TextStyle {
            face: FontFace::Icons20,
            text_color: if w.battery_icon == Icon::BatteryEmpty { red() } else { white() },
            background: Some(black()),
        }, false)]
    } else {
        Seq::empty()
    }
}

/// The charge plug, if marked.
pub open spec fn plug_part(w: &WatchFace) -> Seq<DrawCommandView> {
    if marked(w.redraw.bits, REDRAW_CHARGE_PLUG) {
        seq![(icon_text(Icon::Plug), 185i32, 22i32, TextStyle {
            face: FontFace::Icons20,
            text_color: if w.is_charging { red() } else { black() },
            background: None,
        }, false)]
    } else {
        Seq::empty()
    }
}

/// `new` is the face `old` brought up to the calendar time `date_time`
/// and the battery state: the texts follow the calendar breakdown of
/// `date_time` (and stay where the calendar cannot break it down), each
/// changed region is marked for redraw, and the icons follow the battery.
pub open spec fn face_after_update(
    old: WatchFace,
    new: WatchFace,
    date_time: DateTime,
    percent_remaining: u8,
    is_charging: bool,
) -> bool {
    let cal = civil_of(date_time.secs);
    let battery_flag: u8 = if battery_icon_of(percent_remaining) != old.battery_icon {
        REDRAW_BATTERY
    } else {
        0
    };
    let plug_flag: u8 = if is_charging != old.is_charging {
        REDRAW_CHARGE_PLUG
    } else {
        0
    };
    &&& new.battery_icon == battery_icon_of(percent_remaining)
    &&& new.is_charging == is_charging
    &&& new.redraw.bits == ((old.redraw.bits | text_redraw(old.redraw.bits, old.shown, cal))
        | battery_flag) | plug_flag
    &&& cal is None ==> {
        &&& new.shown == old.shown
        &&& new.time_text@ == old.time_text@
        &&& new.date_text@ == old.date_text@
    }
    &&& cal is Some ==> {
        let c = cal.unwrap();
        let force = old.redraw.bits & REDRAW_FORCE_UPDATE == REDRAW_FORCE_UPDATE;
        let new_date = force || date_differs(old.shown, c);
        let new_time = force || time_differs(old.shown, c);
        &&& new.date_text@ == if new_date {
            date_text_of(c)
        } else {
            old.date_text@
        }
        &&& new.time_text@ == if new_time {
            time_text_of(c)
        } else {
            old.time_text@
        }
        &&& new.shown == if new_date || new_time {
            c
        } else {
            old.shown
        }
    }
}

/// A full repaint: when every region is marked (as a wake marks them), an
/// update rebuilds both texts from the calendar and every region stays
/// marked.
pub proof fn lemma_forced_repaint(
    old: WatchFace,
    new: WatchFace,
    date_time: DateTime,
    percent_remaining: u8,
    is_charging: bool,
)
    requires
        old.redraw.bits == REDRAW_ALL,
        civil_of(date_time.secs) is Some,
        face_after_update(old, new, date_time, percent_remaining, is_charging),
    ensures
        new.redraw.bits == REDRAW_ALL,
        new.date_text@ == date_text_of(civil_of(date_time.secs).unwrap()),
        new.time_text@ == time_text_of(civil_of(date_time.secs).unwrap()),
        new.shown == civil_of(date_time.secs).unwrap(),
{
    assert(forall|x: u8| #[trigger] (0xFFu8 | x) == 0xFFu8) by (bit_vector);
    assert(0xFFu8 & 0x80u8 == 0x80u8) by (bit_vector);
}

/// A copy of a text.
fn copy_text(v: &Vec<char>) -> (r: Vec<char>)
    ensures
        r@ == v@,
{
    let mut r: Vec<char> = Vec::new();
    let mut i: usize = 0;
    while i < v.len()
        invariant
            i <= v@.len(),
            r@ == v@.subrange(0, i as int),
        decreases v@.len() - i,
    {
        r.push(v[i]);
        i = i + 1;
        assert(r@ =~= v@.subrange(0, i as int));
    }
    assert(v@.subrange(0, v@.len() as int) =~= v@);
    r
}

/// The calendar breakdown of the epoch, 1970-01-01T00:00 (a Thursday).
pub open spec fn epoch_civil() -> CivilTime {
    CivilTime { year: 1970, month0: 0, day: 1, weekday: 3, hour: 0, minute: 0 }
}

/// The watch face: the date-time its texts show, the battery and charge
/// state its icons show, the texts, and the regions to redraw.
#[derive(Debug)]
pub struct WatchFace {
    pub redraw: Redraw,
    pub shown: CivilTime,
    pub is_charging: bool,
    pub battery_icon: Icon,
    pub time_text: Vec<char>,
    pub date_text: Vec<char>,
}

impl WatchFace {
    /// The shown date-time is a calendar value.
    pub open spec fn wf(&self) -> bool {
        self.shown.wf()
    }

    /// A face showing the epoch with a full battery, not charging, with
    /// everything to redraw and the texts to be built on the first update.
    pub fn new() -> (r: Self)
        ensures
            r.wf(),
            r.redraw.bits == REDRAW_ALL,
            r.shown == epoch_civil(),
            !r.is_charging,
            r.battery_icon == Icon::BatteryFull,
            r.time_text@.len() == 0,
            r.date_text@.len() == 0,
    {
        WatchFace {
            redraw: Redraw { bits: REDRAW_ALL },
            shown: CivilTime { year: 1970, month0: 0, day: 1, weekday: 3, hour: 0, minute: 0 },
            is_charging: false,
            battery_icon: Icon::BatteryFull,
            time_text: Vec::new(),
            date_text: Vec::new(),
        }
    }

    /// Marks every region for redraw and forces the texts to be rebuilt.
    pub fn force_redraw(&mut self)
        ensures
            final(self).redraw.bits == REDRAW_ALL,
            final(self).shown == old(self).shown,
            final(self).is_charging == old(self).is_charging,
            final(self).battery_icon == old(self).battery_icon,
            final(self).time_text@ == old(self).time_text@,
            final(self).date_text@ == old(self).date_text@,
    {
        self.redraw.set_all();
    }

    /// Marks every region as drawn.
    pub fn clear_redraw(&mut self)
        ensures
            final(self).redraw.bits == 0,
            final(self).shown == old(self).shown,
            final(self).is_charging == old(self).is_charging,
            final(self).battery_icon == old(self).battery_icon,
            final(self).time_text@ == old(self).time_text@,
            final(self).date_text@ == old(self).date_text@,
    {
        self.redraw.clear();
    }

    /// Brings the face up to the calendar date-time `c`: the date text is
    /// rebuilt when the day changed, the time text when the 12-hour time
    /// changed, or both on a forced update, each marking its region for
    /// redraw. The shown date-time moves to `c` when either text was rebuilt.
    pub fn update_date_time(&mut self, c: CivilTime)
        requires
            old(self).wf(),
            c.wf(),
        ensures
            final(self).wf(),
            ({
                let force = old(self).redraw.bits & REDRAW_FORCE_UPDATE == REDRAW_FORCE_UPDATE;
                let new_date = force || date_differs(old(self).shown, c);
                let new_time = force || time_differs(old(self).shown, c);
                &&& final(self).date_text@ == if new_date {
                    date_text_of(c)
                } else {
                    old(self).date_text@
                }
                &&& final(self).time_text@ == if new_time {
                    time_text_of(c)
                } else {
                    old(self).time_text@
                }
                &&& final(self).redraw.bits == old(self).redraw.bits | (if new_date {
                    REDRAW_DATE
                } else {
                    0
                }) | (if new_time {
                    REDRAW_TIME
                } else {
                    0
                })
                &&& final(self).shown == if new_date || new_time {
                    c
                } else {
                    old(self).shown
                }
            }),
            final(self).is_charging == old(self).is_charging,
            final(self).battery_icon == old(self).battery_icon,
    {
        let force = self.redraw.contains(REDRAW_FORCE_UPDATE);
        let prev = self.shown;
        let new_date = force || prev.year != c.year || prev.month0 != c.month0 || prev.day != c.day;
        let ph = prev.hour % 12;
        let ch = c.hour % 12;
        let new_time = force || ph != ch || (prev.hour >= 12) != (c.hour >= 12) || prev.minute
            != c.minute;
        assert(new_time == (force || time_differs(prev, c)));
        if new_date {
            self.date_text = date_text(&c);
            self.redraw.insert(REDRAW_DATE);
        }
        if new_time {
            self.time_text = time_text(&c);
            self.redraw.insert(REDRAW_TIME);
        }
        if new_date || new_time {
            self.shown = c;
        }
        assert(forall|x: u8| #[trigger] (x | 0u8) == x) by (bit_vector);
    }

    /// Shows the battery icon for `percent_remaining`, marking its region for
    /// redraw when the icon changes.
    pub fn update_battery_indicator(&mut self, percent_remaining: u8)
        ensures
            final(self).battery_icon == battery_icon_of(percent_remaining),
            final(self).redraw.bits == if battery_icon_of(percent_remaining)
                != old(self).battery_icon {
                old(self).redraw.bits | REDRAW_BATTERY
            } else {
                old(self).redraw.bits
            },
            final(self).shown == old(self).shown,
            final(self).is_charging == old(self).is_charging,
            final(self).time_text@ == old(self).time_text@,
            final(self).date_text@ == old(self).date_text@,
    {
        let icon = Icon::battery_icon_from_percent_remaining(percent_remaining);
        if icon != self.battery_icon {
            self.redraw.insert(REDRAW_BATTERY);
            self.battery_icon = icon;
        }
    }

    /// Shows the charge plug when charging, marking its region for redraw
    /// when that changes.
    pub fn update_battery_charge_plug(&mut self, is_charging: bool)
        ensures
            final(self).is_charging == is_charging,
            final(self).redraw.bits == if is_charging != old(self).is_charging {
                old(self).redraw.bits | REDRAW_CHARGE_PLUG
            } else {
                old(self).redraw.bits
            },
            final(self).shown == old(self).shown,
            final(self).battery_icon == old(self).battery_icon,
            final(self).time_text@ == old(self).time_text@,
            final(self).date_text@ == old(self).date_text@,
    {
        if is_charging != self.is_charging {
            self.redraw.insert(REDRAW_CHARGE_PLUG);
            self.is_charging = is_charging;
        }
    }

    /// The texts to draw for the regions marked for redraw.
    pub fn draw(&self, fonts: &FontStyles) -> (r: Vec<DrawCommand>)
        ensures
            r@.len() == draw_plan(self, *fonts).len(),
            forall|i: int| 0 <= i < r@.len() ==> #[trigger] r@[i].view() == draw_plan(self, *fonts)[i],
    {
        let mut cmds: Vec<DrawCommand> = Vec::new();
        if self.redraw.contains(REDRAW_TIME) {
            let mut style = fonts.watchface_time.style();
            style.background = Some(Color::black());
            cmds.push(
                DrawCommand { text: copy_text(&self.time_text), x: 120, y: 120, style, centered: true },
            );
        }
        assert(cmds@.map_values(|c: DrawCommand| c.view()) =~= time_part(self, *fonts));
        if self.redraw.contains(REDRAW_DATE) {
            let mut style = fonts.watchface_date.style();
            style.background = Some(Color::black());
            cmds.push(
                DrawCommand { text: copy_text(&self.date_text), x: 120, y: 170, style, centered: true },
            );
        }
        assert(cmds@.map_values(|c: DrawCommand| c.view()) =~= time_part(self, *fonts) + date_part(
            self,
            *fonts,
        ));
        if self.redraw.contains(REDRAW_BATTERY) {
            let color = if self.battery_icon == Icon::BatteryEmpty {
                Color::red()
            } else {
                Color::white()
            };
            let style = TextStyle {
                face: FontFace::Icons20,
                text_color: color,
                background: Some(Color::black()),
            };
            let text = vec![self.battery_icon.as_char()];
            assert(text@ =~= icon_text(self.battery_icon));
            cmds.push(DrawCommand { text, x: 210, y: 20, style, centered: false });
        }
        assert(cmds@.map_values(|c: DrawCommand| c.view()) =~= time_part(self, *fonts) + date_part(
            self,
            *fonts,
        ) + battery_part(self));
        if self.redraw.contains(REDRAW_CHARGE_PLUG) {
            let color = if self.is_charging {
                Color::red()
            } else {
                Color::black()
            };
            let style = TextStyle { face: FontFace::Icons20, text_color: color, background: None };
            let text = vec![Icon::Plug.as_char()];
            assert(text@ =~= icon_text(Icon::Plug));
            cmds.push(DrawCommand { text, x: 185, y: 22, style, centered: false });
        }
        proof {
            let views = cmds@.map_values(|c: DrawCommand| c.view());
            assert(views =~= draw_plan(self, *fonts));
            assert forall|i: int| 0 <= i < cmds@.len() implies #[trigger] cmds@[i].view()
                == draw_plan(self, *fonts)[i] by {
                assert(views[i] == cmds@[i].view());
            }
        }
        cmds
    }

    /// Brings the whole face up to the calendar time `date_time` and the
    /// battery state. The texts follow the calendar breakdown of
    /// `date_time`; where the calendar cannot break it down, they stay.
    pub fn update(&mut self, date_time: DateTime, percent_remaining: u8, is_charging: bool)
        requires
            old(self).wf(),
        ensures
            final(self).wf(),
            face_after_update(*old(self), *final(self), date_time, percent_remaining, is_charging),
            0 <= date_time.secs < 0x100_0000_0000 ==> civil_of(date_time.secs) is Some,
    {
        let ghost b0 = self.redraw.bits;
        if let Some(c) = civil_time(date_time.timestamp()) {
            self.update_date_time(c);
            assert(forall|x: u8, y: u8, z: u8| #[trigger] ((x | y) | z) == x | (y | z)) by (bit_vector);
        }
        assert(forall|x: u8| #[trigger] (x | 0u8) == x) by (bit_vector);
        assert(self.redraw.bits == b0 | text_redraw(b0, old(self).shown, civil_of(date_time.secs)));
        self.update_battery_indicator(percent_remaining);
        self.update_battery_charge_plug(is_charging);
    }
}

} // verus!
