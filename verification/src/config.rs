//! The bar's configuration: its defaults, where it is stored, the styles
//! picked from it, and the colour notation it uses.
use vstd::prelude::*;

use crate::text::{chars_of, string_of, to_owned_string};

verus! {

/// Size and edge of the bar.
pub struct DisplayConfig {
    pub height: i32,
    pub edge: String,
    pub width: i32,
}

/// Theme colours in hex notation.
pub struct ThemeConfig {
    pub background: String,
    pub foreground: String,
    pub accent: String,
}

/// Colours and corner radius of the workspace widget.
pub struct WorkspacesStyle {
    pub bg_color: Option<String>,
    pub active_color: Option<String>,
    pub occupied_bg: Option<String>,
    pub text_active: Option<String>,
    pub text_occupied: Option<String>,
    pub text_free: Option<String>,
    pub border_radius: Option<i32>,
}

/// Colour and corner radius of the music widget.
pub struct MusicIconStyle {
    pub artist_color: Option<String>,
    pub album_border_radius: Option<i32>,
}

/// Style overrides of the widgets.
pub struct WidgetStylesConfig {
    pub workspaces: Option<WorkspacesStyle>,
    pub music_icon: Option<MusicIconStyle>,
}

/// Which widgets are enabled.
pub struct WidgetsConfig {
    pub battery: bool,
    pub network: bool,
    pub bluetooth: bool,
    pub clock: bool,
    pub media: bool,
    pub workspaces: bool,
    pub screenshot: bool,
}

/// How many workspaces there are and their labels.
pub struct WorkspacesConfig {
    pub total_workspaces: i32,
    pub format: Option<Vec<String>>,
}

/// The bar's configuration file.
pub struct Config {
    pub display: DisplayConfig,
    pub theme: ThemeConfig,
    pub widget: WidgetStylesConfig,
    pub widgets: WidgetsConfig,
    pub workspaces: WorkspacesConfig,
}

pub open spec fn opt_str(o: Option<String>) -> Option<Seq<char>> {
    match o {
        Some(s) => Some(s@),
        None => None,
    }
}

fn some_str(s: &str) -> (r: Option<String>)
    ensures
        opt_str(r) == Some(s@),
{
    Some(to_owned_string(s))
}

fn clone_opt(o: &Option<String>) -> (r: Option<String>)
    ensures
        r == *o,
{
    match o {
        Some(s) => Some(s.clone()),
        None => None,
    }
}

impl Default for DisplayConfig {
    /// A 1366x38 bar on the top edge.
    fn default() -> (c: Self)
        ensures
            c.height == 38,
            c.edge@ == "top"@,
            c.width == 1366,
    {
        DisplayConfig { height: 38, edge: to_owned_string("top"), width: 1366 }
    }
}

impl Default for ThemeConfig {
    /// Dark background, pale green foreground, blue accent.
    fn default() -> (c: Self)
        ensures
            c.background@ == "#0808080f"@,
            c.foreground@ == "#bac7bf"@,
            c.accent@ == "#89b4fa"@,
    {
        ThemeConfig {
            background: to_owned_string("#0808080f"),
            foreground: to_owned_string("#bac7bf"),
            accent: to_owned_string("#89b4fa"),
        }
    }
}

impl WorkspacesStyle {
    /// The workspace indicator's default colours and a 14-pixel radius.
    pub open spec fn is_default(self) -> bool {
        &&& opt_str(self.bg_color) == Some("#1e1f1bf6"@)
        &&& opt_str(self.active_color) == Some("#B4CCC1"@)
        &&& opt_str(self.occupied_bg) == Some("#303934"@)
        &&& opt_str(self.text_active) == Some("#303934"@)
        &&& opt_str(self.text_occupied) == Some("#B4C0B9"@)
        &&& opt_str(self.text_free) == Some("#868686"@)
        &&& self.border_radius == Some(14i32)
    }

    /// A copy of this style.
    pub fn duplicate(&self) -> (r: WorkspacesStyle)
        ensures
            r == *self,
    {
        WorkspacesStyle {
            bg_color: clone_opt(&self.bg_color),
            active_color: clone_opt(&self.active_color),
            occupied_bg: clone_opt(&self.occupied_bg),
            text_active: clone_opt(&self.text_active),
            text_occupied: clone_opt(&self.text_occupied),
            text_free: clone_opt(&self.text_free),
            border_radius: self.border_radius,
        }
    }
}

impl Default for WorkspacesStyle {
    fn default() -> (s: Self)
        ensures
            s.is_default(),
    {
        WorkspacesStyle {
            bg_color: some_str("#1e1f1bf6"),
            active_color: some_str("#B4CCC1"),
            occupied_bg: some_str("#303934"),
            text_active: some_str("#303934"),
            text_occupied: some_str("#B4C0B9"),
            text_free: some_str("#868686"),
            border_radius: Some(14),
        }
    }
}

impl MusicIconStyle {
    /// The music widget's default artist colour and a 4-pixel album radius.
    pub open spec fn is_default(self) -> bool {
        &&& opt_str(self.artist_color) == Some("#85948d"@)
        &&& self.album_border_radius == Some(4i32)
    }

    /// A copy of this style.
    pub fn duplicate(&self) -> (r: MusicIconStyle)
        ensures
            r == *self,
    {
        MusicIconStyle {
            artist_color: clone_opt(&self.artist_color),
            album_border_radius: self.album_border_radius,
        }
    }
}

impl Default for MusicIconStyle {
    fn default() -> (s: Self)
        ensures
            s.is_default(),
    {
        MusicIconStyle { artist_color: some_str("#85948d"), album_border_radius: Some(4) }
    }
}

impl Default for WidgetStylesConfig {
    /// No style overrides.
    fn default() -> (s: Self)
        ensures
            s.workspaces is None,
            s.music_icon is None,
    {
        WidgetStylesConfig { workspaces: None, music_icon: None }
    }
}

impl WidgetsConfig {
    pub open spec fn all_enabled(self) -> bool {
        self.battery && self.network && self.bluetooth && self.clock && self.media && self.workspaces
            && self.screenshot
    }
}

impl Default for WidgetsConfig {
    /// Every widget enabled.
    fn default() -> (w: Self)
        ensures
            w.all_enabled(),
    {
        WidgetsConfig {
            battery: true,
            network: true,
            bluetooth: true,
            clock: true,
            media: true,
            workspaces: true,
            screenshot: true,
        }
    }
}

impl Default for WorkspacesConfig {
    /// Eight workspaces labelled by their numbers.
    fn default() -> (w: Self)
        ensures
            w.total_workspaces == 8,
            w.format is None,
    {
        WorkspacesConfig { total_workspaces: 8, format: None }
    }
}

impl Config {
    /// The configuration written when none exists.
    pub open spec fn is_default(self) -> bool {
        &&& self.display.height == 38
        &&& self.display.edge@ == "top"@
        &&& self.display.width == 1366
        &&& self.theme.background@ == "#0808080f"@
        &&& self.theme.foreground@ == "#bac7bf"@
        &&& self.theme.accent@ == "#89b4fa"@
        &&& self.widget.workspaces is None
        &&& self.widget.music_icon is None
        &&& self.widgets.all_enabled()
        &&& self.workspaces.total_workspaces == 8
        &&& self.workspaces.format is None
    }
}

impl Default for Config {
    fn default() -> (c: Self)
        ensures
            c.is_default(),
    {
        Config {
            display: DisplayConfig::default(),
            theme: ThemeConfig::default(),
            widget: WidgetStylesConfig::default(),
            widgets: WidgetsConfig::default(),
            workspaces: WorkspacesConfig::default(),
        }
    }
}

/// The workspace style in force: the configured one, else the default.
pub open spec fn workspaces_style_of(config: Config, style: WorkspacesStyle) -> bool {
    match config.widget.workspaces {
        Some(s) => style == s,
        None => style.is_default(),
    }
}

/// The music-icon style in force: the configured one, else the default.
pub open spec fn music_icon_style_of(config: Config, style: MusicIconStyle) -> bool {
    match config.widget.music_icon {
        Some(s) => style == s,
        None => style.is_default(),
    }
}

/// The workspace indicator's style: the configured one, else the default.
pub fn get_workspaces_style(config: &Config) -> (s: WorkspacesStyle)
    ensures
        workspaces_style_of(*config, s),
{
    match &config.widget.workspaces {
        Some(s) => s.duplicate(),
        None => WorkspacesStyle::default(),
    }
}

/// The music icon's style: the configured one, else the default.
pub fn get_music_icon_style(config: &Config) -> (s: MusicIconStyle)
    ensures
        music_icon_style_of(*config, s),
{
    match &config.widget.music_icon {
        Some(s) => s.duplicate(),
        None => MusicIconStyle::default(),
    }
}

/// An RGBA colour with 8-bit channels.
#[derive(PartialEq, Eq, Structural, Clone, Copy, Debug)]
pub struct Color {
    pub red: u8,
    pub green: u8,
    pub blue: u8,
    pub alpha: u8,
}

/// `s` without its leading '#' characters.
pub open spec fn trim_hashes(s: Seq<char>) -> Seq<char>
    decreases s.len(),
{
    if s.len() > 0 && s[0] == '#' {
        trim_hashes(s.skip(1))
    } else {
        s
    }
}

/// The value of a hexadecimal digit byte.
pub open spec fn hex_val(b: u8) -> Option<u8> {
    if 48 <= b <= 57 {
        Some((b - 48) as u8)
    } else if 97 <= b <= 102 {
        Some((b - 87) as u8)
    } else if 65 <= b <= 70 {
        Some((b - 55) as u8)
    } else {
        None
    }
}

/// A two-byte hexadecimal field (`u8::from_str_radix(_, 16)`): two hex digits,
/// or '+' and one hex digit.
pub open spec fn hex_pair(b0: u8, b1: u8) -> Option<u8> {
    if b0 == 43 {
        hex_val(b1)
    } else {
        match (hex_val(b0), hex_val(b1)) {
            (Some(h), Some(l)) => Some((h * 16 + l) as u8),
            _ => None,
        }
    }
}

pub open spec fn or_default(o: Option<u8>, d: u8) -> u8 {
    match o {
        Some(v) => v,
        None => d,
    }
}

/// The colour a hex notation names: after the leading '#'s, eight bytes are
/// RRGGBBAA and six are RRGGBB (opaque); an unreadable channel counts as 0
/// (the alpha channel as 255); any other length is opaque black.
pub open spec fn hex_color(s: Seq<char>) -> Color {
    let b = vstd::utf8::encode_utf8(trim_hashes(s));
    if b.len() == 8 {
        Color {
            red: or_default(hex_pair(b[0], b[1]), 0),
            green: or_default(hex_pair(b[2], b[3]), 0),
            blue: or_default(hex_pair(b[4], b[5]), 0),
            alpha: or_default(hex_pair(b[6], b[7]), 255),
        }
    } else if b.len() == 6 {
        Color {
            red: or_default(hex_pair(b[0], b[1]), 0),
            green: or_default(hex_pair(b[2], b[3]), 0),
            blue: or_default(hex_pair(b[4], b[5]), 0),
            alpha: 255,
        }
    } else {
        Color { red: 0, green: 0, blue: 0, alpha: 255 }
    }
}

/// Whether the channels of a notation fall on character boundaries (the
/// notation is cut into two-byte channels).
pub open spec fn hex_color_readable(s: Seq<char>) -> bool {
    let b = vstd::utf8::encode_utf8(trim_hashes(s));
    &&& b.len() == 8 ==> vstd::utf8::is_char_boundary(b, 2) && vstd::utf8::is_char_boundary(b, 4)
        && vstd::utf8::is_char_boundary(b, 6)
    &&& b.len() == 6 ==> vstd::utf8::is_char_boundary(b, 2) && vstd::utf8::is_char_boundary(b, 4)
}

fn hex_digit(b: u8) -> (r: Option<u8>)
    ensures
        r == hex_val(b),
{
    if 48 <= b && b <= 57 {
        Some(b - 48)
    } else if 97 <= b && b <= 102 {
        Some(b - 87)
    } else if 65 <= b && b <= 70 {
        Some(b - 55)
    } else {
        None
    }
}

fn channel(b0: u8, b1: u8, default: u8) -> (r: u8)
    ensures
        r == or_default(hex_pair(b0, b1), default),
{
    if b0 == 43 {
        match hex_digit(b1) {
            Some(v) => v,
            None => default,
        }
    } else {
        match (hex_digit(b0), hex_digit(b1)) {
            (Some(h), Some(l)) => h * 16 + l,
            _ => default,
        }
    }
}

/// Parses a colour in hex notation ("#RRGGBBAA" or "#RRGGBB").
pub fn parse_hex_color(hex: &str) -> (c: Color)
    requires
        hex_color_readable(hex@),
    ensures
        c == hex_color(hex@),
{
    let v = chars_of(hex);
    let n = v.len();
    let mut k: usize = 0;
    assert(v@.subrange(0, n as int) =~= v@);
    while k < n && v[k] == '#'
        invariant
            v@ == hex@,
            n == v@.len(),
            0 <= k <= n,
            trim_hashes(hex@) == trim_hashes(v@.subrange(k as int, n as int)),
        decreases n - k,
    {
        assert(v@.subrange(k as int, n as int).skip(1) =~= v@.subrange(k + 1, n as int));
        k = k + 1;
    }
    assert(trim_hashes(v@.subrange(k as int, n as int)) == v@.subrange(k as int, n as int));
    let rest = string_of(&v, k, n);
    let b = rest.as_str().as_bytes();
    assert(b@ == vstd::utf8::encode_utf8(trim_hashes(hex@)));
    if b.len() == 8 {
        Color {
            red: channel(b[0], b[1], 0),
            green: channel(b[2], b[3], 0),
            blue: channel(b[4], b[5], 0),
            alpha: channel(b[6], b[7], 255),
        }
    } else if b.len() == 6 {
        Color {
            red: channel(b[0], b[1], 0),
            green: channel(b[2], b[3], 0),
            blue: channel(b[4], b[5], 0),
            alpha: 255,
        }
    } else {
        Color { red: 0, green: 0, blue: 0, alpha: 255 }
    }
}

pub open spec fn opt_color(o: Option<String>) -> Option<Color> {
    match o {
        Some(s) => Some(hex_color(s@)),
        None => None,
    }
}

pub open spec fn opt_readable(o: Option<String>) -> bool {
    match o {
        Some(s) => hex_color_readable(s@),
        None => true,
    }
}

fn parse_opt(o: &Option<String>) -> (r: Option<Color>)
    requires
        opt_readable(*o),
    ensures
        r == opt_color(*o),
{
    match o {
        Some(s) => Some(parse_hex_color(s.as_str())),
        None => None,
    }
}

/// The theme settings the styles of a configuration give: each colour or radius
/// that the style in force sets (`None` leaves the theme's own).
#[derive(PartialEq, Eq, Structural, Clone, Copy, Debug)]
pub struct ThemeStyles {
    pub workspaces_bg_color: Option<Color>,
    pub workspaces_active_color: Option<Color>,
    pub workspaces_occupied_bg: Option<Color>,
    pub workspaces_text_active: Option<Color>,
    pub workspaces_text_occupied: Option<Color>,
    pub workspaces_text_free: Option<Color>,
    pub workspaces_border_radius: Option<i32>,
    pub music_artist_color: Option<Color>,
    pub music_album_border_radius: Option<i32>,
}

/// Whether every colour a configuration sets can be read.
pub open spec fn styles_readable(config: Config) -> bool {
    &&& config.widget.workspaces matches Some(ws) ==> {
        &&& opt_readable(ws.bg_color)
        &&& opt_readable(ws.active_color)
        &&& opt_readable(ws.occupied_bg)
        &&& opt_readable(ws.text_active)
        &&& opt_readable(ws.text_occupied)
        &&& opt_readable(ws.text_free)
    }
    &&& config.widget.music_icon matches Some(ms) ==> opt_readable(ms.artist_color)
}

fn continuation(b: u8) -> (r: bool)
    ensures
        r == vstd::utf8::is_continuation_byte(b),
{
    0x80 <= b && b <= 0xbf
}

/// Whether `parse_hex_color` can read a notation: its two-byte channels
/// fall on character boundaries.
pub fn hex_color_is_readable(hex: &str) -> (r: bool)
    ensures
        r == hex_color_readable(hex@),
{
    let v = chars_of(hex);
    let n = v.len();
    let mut k: usize = 0;
    assert(v@.subrange(0, n as int) =~= v@);
    while k < n && v[k] == '#'
        invariant
            v@ == hex@,
            n == v@.len(),
            0 <= k <= n,
            trim_hashes(hex@) == trim_hashes(v@.subrange(k as int, n as int)),
        decreases n - k,
    {
        assert(v@.subrange(k as int, n as int).skip(1) =~= v@.subrange(k + 1, n as int));
        k = k + 1;
    }
    assert(trim_hashes(v@.subrange(k as int, n as int)) == v@.subrange(k as int, n as int));
    let rest = string_of(&v, k, n);
    let b = rest.as_str().as_bytes();
    assert(b@ == vstd::utf8::encode_utf8(trim_hashes(hex@)));
    proof {
        vstd::utf8::encode_utf8_valid_utf8(trim_hashes(hex@));
        if b@.len() == 8 || b@.len() == 6 {
            vstd::utf8::is_char_boundary_iff_not_is_continuation_byte(b@, 2);
            vstd::utf8::is_char_boundary_iff_not_is_continuation_byte(b@, 4);
        }
        if b@.len() == 8 {
            vstd::utf8::is_char_boundary_iff_not_is_continuation_byte(b@, 6);
        }
    }
    if b.len() == 8 {
        !continuation(b[2]) && !continuation(b[4]) && !continuation(b[6])
    } else if b.len() == 6 {
        !continuation(b[2]) && !continuation(b[4])
    } else {
        true
    }
}

fn opt_is_readable(o: &Option<String>) -> (r: bool)
    ensures
        r == opt_readable(*o),
{
    match o {
        Some(s) => hex_color_is_readable(s.as_str()),
        None => true,
    }
}

/// Whether every colour the styles of a configuration set can be read.
pub fn styles_are_readable(config: &Config) -> (r: bool)
    ensures
        r == styles_readable(*config),
{
    let ws_ok = match &config.widget.workspaces {
        Some(ws) => opt_is_readable(&ws.bg_color) && opt_is_readable(&ws.active_color)
            && opt_is_readable(&ws.occupied_bg) && opt_is_readable(&ws.text_active)
            && opt_is_readable(&ws.text_occupied) && opt_is_readable(&ws.text_free),
        None => true,
    };
    let ms_ok = match &config.widget.music_icon {
        Some(ms) => opt_is_readable(&ms.artist_color),
        None => true,
    };
    ws_ok && ms_ok
}

/// The theme settings of the styles `ws` and `ms`.
pub open spec fn styles_of(ws: WorkspacesStyle, ms: MusicIconStyle) -> ThemeStyles {
    ThemeStyles {
        workspaces_bg_color: opt_color(ws.bg_color),
        workspaces_active_color: opt_color(ws.active_color),
        workspaces_occupied_bg: opt_color(ws.occupied_bg),
        workspaces_text_active: opt_color(ws.text_active),
        workspaces_text_occupied: opt_color(ws.text_occupied),
        workspaces_text_free: opt_color(ws.text_free),
        workspaces_border_radius: ws.border_radius,
        music_artist_color: opt_color(ms.artist_color),
        music_album_border_radius: ms.album_border_radius,
    }
}

proof fn lemma_trim_hashes_suffix(s: Seq<char>)
    ensures
        exists|k: int| 0 <= k <= s.len() && #[trigger] s.skip(k) == trim_hashes(s),
    decreases s.len(),
{
    if s.len() > 0 && s[0] == '#' {
        lemma_trim_hashes_suffix(s.skip(1));
        let k = choose|k: int| 0 <= k <= s.skip(1).len() && #[trigger] s.skip(1).skip(k) == trim_hashes(s.skip(1));
        assert(s.skip(1).skip(k) =~= s.skip(k + 1));
    } else {
        assert(s.skip(0) =~= s);
    }
}

/// A notation made of ASCII characters only can always be read.
/// Every ASCII colour string can be read: `parse_hex_color` accepts it.
pub proof fn law_ascii_colors_readable(s: Seq<char>)
    requires
        vstd::utf8::is_ascii_chars(s),
    ensures
        hex_color_readable(s),
{
    lemma_trim_hashes_suffix(s);
    let k = choose|k: int| 0 <= k <= s.len() && #[trigger] s.skip(k) == trim_hashes(s);
    let t = trim_hashes(s);
    assert(vstd::utf8::is_ascii_chars(t)) by {
        assert forall|i: int| 0 <= i < t.len() implies '\0' <= #[trigger] t[i] <= '\u{7f}' by {
            assert(t[i] == s[i + k]);
        }
    }
    let b = vstd::utf8::encode_utf8(t);
    vstd::utf8::is_ascii_chars_encode_utf8(t);
    vstd::utf8::encode_utf8_valid_utf8(t);
    assert forall|i: int| 0 <= i < b.len() implies vstd::utf8::is_char_boundary(b, i) by {
        vstd::utf8::is_char_boundary_iff_not_is_continuation_byte(b, i);
        let x = b[i];
        assert(x == t[i] as u8);
        assert(x < 128);
        assert(x < 128 ==> !vstd::utf8::is_continuation_byte(x)) by (bit_vector);
    }
}

/// The lower-case form of an upper-case hex letter ('A' to 'F'); any
/// other character is kept.
pub open spec fn lower_hex_char(c: char) -> char {
    if c == 'A' {
        'a'
    } else if c == 'B' {
        'b'
    } else if c == 'C' {
        'c'
    } else if c == 'D' {
        'd'
    } else if c == 'E' {
        'e'
    } else if c == 'F' {
        'f'
    } else {
        c
    }
}

/// The byte of `lower_hex_char`: 'A' to 'F' (65 to 70) become 'a' to 'f'.
pub open spec fn lower_hex_byte(b: u8) -> u8 {
    if 65 <= b <= 70 {
        (b + 32) as u8
    } else {
        b
    }
}

/// Hex digits are read in either case: the letters 'A' to 'F' stand for
/// 10 to 15 as 'a' to 'f' do, digits '0' to '9' for 0 to 9, and a two-byte
/// channel reads the same whatever the case of its letters. A channel of
/// two digits has the first as its high and the second as its low nibble,
/// and is unreadable when either is no hex digit.
pub proof fn law_hex_digits_ignore_case(b: u8, b0: u8, b1: u8)
    ensures
        65 <= b <= 70 ==> hex_val(b) == Some((b - 55) as u8) && hex_val(b) == hex_val((b + 32) as u8),
        48 <= b <= 57 ==> hex_val(b) == Some((b - 48) as u8),
        hex_val(b) matches Some(v) ==> v < 16,
        hex_pair(b0, b1) == hex_pair(lower_hex_byte(b0), lower_hex_byte(b1)),
        (b0 != 43 && hex_val(b0) is Some && hex_val(b1) is Some) ==> (hex_pair(b0, b1) matches Some(v)
            && v / 16 == hex_val(b0)->Some_0 && v % 16 == hex_val(b1)->Some_0),
        (b0 != 43 && (hex_val(b0) is None || hex_val(b1) is None)) ==> hex_pair(b0, b1) is None,
{
}

proof fn lemma_trim_hashes_lower(s: Seq<char>)
    ensures
        trim_hashes(s.map_values(|c: char| lower_hex_char(c))) == trim_hashes(s).map_values(
            |c: char| lower_hex_char(c),
        ),
    decreases s.len(),
{
    let f = |c: char| lower_hex_char(c);
    let m = s.map_values(f);
    if s.len() > 0 && s[0] == '#' {
        assert(m[0] == '#');
        assert(m.skip(1) =~= s.skip(1).map_values(f));
        lemma_trim_hashes_lower(s.skip(1));
    } else if s.len() > 0 {
        assert(m[0] == lower_hex_char(s[0]));
        assert(m[0] != '#');
    } else {
        assert(m =~= s.map_values(f));
    }
}

/// A colour notation in ASCII names the same colour whatever the case of
/// its hex letters: lower-casing 'A' to 'F' changes no channel.
pub proof fn law_hex_color_ignores_case(s: Seq<char>)
    requires
        vstd::utf8::is_ascii_chars(s),
    ensures
        hex_color(s) == hex_color(s.map_values(|c: char| lower_hex_char(c))),
{
    let f = |c: char| lower_hex_char(c);
    let s2 = s.map_values(f);
    lemma_trim_hashes_lower(s);
    lemma_trim_hashes_suffix(s);
    let k = choose|k: int| 0 <= k <= s.len() && #[trigger] s.skip(k) == trim_hashes(s);
    let t = trim_hashes(s);
    let t2 = trim_hashes(s2);
    assert(t2 == t.map_values(f));
    assert(vstd::utf8::is_ascii_chars(t)) by {
        assert forall|i: int| 0 <= i < t.len() implies '\0' <= #[trigger] t[i] <= '\u{7f}' by {
            assert(t[i] == s[i + k]);
        }
    }
    assert(vstd::utf8::is_ascii_chars(t2)) by {
        assert forall|i: int| 0 <= i < t2.len() implies '\0' <= #[trigger] t2[i] <= '\u{7f}' by {
            assert(t2[i] == lower_hex_char(t[i]));
        }
    }
    vstd::utf8::is_ascii_chars_encode_utf8(t);
    vstd::utf8::is_ascii_chars_encode_utf8(t2);
    let b = vstd::utf8::encode_utf8(t);
    let b2 = vstd::utf8::encode_utf8(t2);
    assert forall|i: int| 0 <= i < b.len() implies #[trigger] b2[i] == lower_hex_byte(b[i]) by {
        assert(t2[i] == lower_hex_char(t[i]));
        assert(b[i] == t[i] as u8);
        assert(b2[i] == t2[i] as u8);
    }
    if b.len() == 8 || b.len() == 6 {
        assert(hex_pair(b2[0], b2[1]) == hex_pair(b[0], b[1]));
        assert(hex_pair(b2[2], b2[3]) == hex_pair(b[2], b[3]));
        assert(hex_pair(b2[4], b2[5]) == hex_pair(b[4], b[5]));
        if b.len() == 8 {
            assert(hex_pair(b2[6], b2[7]) == hex_pair(b[6], b[7]));
        }
    }
}

proof fn lemma_default_workspaces_readable(ws: WorkspacesStyle)
    requires
        ws.is_default(),
    ensures
        opt_readable(ws.bg_color),
        opt_readable(ws.active_color),
        opt_readable(ws.occupied_bg),
        opt_readable(ws.text_active),
        opt_readable(ws.text_occupied),
        opt_readable(ws.text_free),
{
    reveal_strlit("#1e1f1bf6");
    reveal_strlit("#B4CCC1");
    reveal_strlit("#303934");
    reveal_strlit("#B4C0B9");
    reveal_strlit("#868686");
    law_ascii_colors_readable("#1e1f1bf6"@);
    law_ascii_colors_readable("#B4CCC1"@);
    law_ascii_colors_readable("#303934"@);
    law_ascii_colors_readable("#B4C0B9"@);
    law_ascii_colors_readable("#868686"@);
}

proof fn lemma_default_music_readable(ms: MusicIconStyle)
    requires
        ms.is_default(),
    ensures
        opt_readable(ms.artist_color),
{
    reveal_strlit("#85948d");
    law_ascii_colors_readable("#85948d"@);
}

/// The theme settings a configuration's widget styles give (each style being
/// the configured one, else the default).
pub fn init_styles(config: &Config) -> (t: ThemeStyles)
    requires
        styles_readable(*config),
    ensures
        exists|ws: WorkspacesStyle, ms: MusicIconStyle|
            workspaces_style_of(*config, ws) && music_icon_style_of(*config, ms) && t == styles_of(
                ws,
                ms,
            ),
{
    let ws = get_workspaces_style(config);
    let ms = get_music_icon_style(config);
    proof {
        if config.widget.workspaces is None {
            lemma_default_workspaces_readable(ws);
        }
        if config.widget.music_icon is None {
            lemma_default_music_readable(ms);
        }
    }
    let t = ThemeStyles {
        workspaces_bg_color: parse_opt(&ws.bg_color),
        workspaces_active_color: parse_opt(&ws.active_color),
        workspaces_occupied_bg: parse_opt(&ws.occupied_bg),
        workspaces_text_active: parse_opt(&ws.text_active),
        workspaces_text_occupied: parse_opt(&ws.text_occupied),
        workspaces_text_free: parse_opt(&ws.text_free),
        workspaces_border_radius: ws.border_radius,
        music_artist_color: parse_opt(&ms.artist_color),
        music_album_border_radius: ms.album_border_radius,
    };
    assert(t == styles_of(ws, ms));
    t
}

/// `a` joined with the relative or absolute path `b` (`Path::join` on Unix):
/// an absolute `b` replaces `a`; otherwise a '/' separates them unless `a` is
/// empty or already ends with one.
pub open spec fn join_path(a: Seq<char>, b: Seq<char>) -> Seq<char> {
    if b.len() > 0 && b[0] == '/' {
        b
    } else if a.len() == 0 {
        b
    } else if a.last() == '/' {
        a + b
    } else {
        a + seq!['/'] + b
    }
}

/// Joins two paths (`Path::join` on Unix).
pub fn join(a: &str, b: &str) -> (r: String)
    ensures
        r@ == join_path(a@, b@),
{
    let av = chars_of(a);
    let bv = chars_of(b);
    if bv.len() > 0 && bv[0] == '/' {
        return to_owned_string(b);
    }
    if av.len() == 0 {
        return to_owned_string(b);
    }
    let mut r = to_owned_string(a);
    if av[av.len() - 1] != '/' {
        crate::text::push_char(&mut r, '/');
    }
    r.append(b);
    r
}

/// The path separator, '/', as a byte.
pub const SEPARATOR: u8 = 47;

/// Joins two paths given as the bytes the operating system stores
/// (`Path::join` on Unix): an absolute `b` replaces `a`; otherwise `b` follows
/// `a`, with a separator between them unless `a` is empty or ends in one.
pub open spec fn join_bytes_spec(a: Seq<u8>, b: Seq<u8>) -> Seq<u8> {
    if b.len() > 0 && b[0] == SEPARATOR {
        b
    } else if a.len() == 0 {
        b
    } else if a.last() == SEPARATOR {
        a + b
    } else {
        a + seq![SEPARATOR] + b
    }
}

fn push_all(r: &mut Vec<u8>, b: &[u8])
    ensures
        final(r)@ == old(r)@ + b@,
{
    let mut k: usize = 0;
    while k < b.len()
        invariant
            0 <= k <= b@.len(),
            r@ == old(r)@ + b@.take(k as int),
        decreases b@.len() - k,
    {
        r.push(b[k]);
        assert(b@.take(k + 1) =~= b@.take(k as int).push(b@[k as int]));
        k = k + 1;
    }
    assert(b@.take(k as int) =~= b@);
}

/// Joins two paths given as bytes (`Path::join` on Unix).
pub fn join_bytes(a: &[u8], b: &[u8]) -> (r: Vec<u8>)
    ensures
        r@ == join_bytes_spec(a@, b@),
{
    let mut r: Vec<u8> = Vec::new();
    if (b.len() > 0 && b[0] == SEPARATOR) || a.len() == 0 {
        push_all(&mut r, b);
        assert(r@ =~= b@);
        return r;
    }
    push_all(&mut r, a);
    if a[a.len() - 1] != SEPARATOR {
        r.push(SEPARATOR);
    }
    push_all(&mut r, b);
    r
}

/// The user's configuration directory (`dirs::config_dir`), as the bytes the
/// operating system stores for it (`OsString::into_encoded_bytes`, which
/// keeps every byte). It depends on the environment, so nothing is stated of
/// it.
#[verifier::external_body]
fn user_config_dir() -> Option<Vec<u8>> {
    dirs::config_dir().map(|p| p.into_os_string().into_encoded_bytes())
}

/// "barrita", the name of the bar's configuration directory, in bytes.
pub open spec fn app_dir_name() -> Seq<u8> {
    seq![98u8, 97u8, 114u8, 114u8, 105u8, 116u8, 97u8]
}

/// "config.toml", the name of the configuration file, in bytes.
pub open spec fn config_file_name() -> Seq<u8> {
    seq![99u8, 111u8, 110u8, 102u8, 105u8, 103u8, 46u8, 116u8, 111u8, 109u8, 108u8]
}

/// The directory of the bar's configuration under the user's configuration
/// directory `base` (the current directory "." when there is none).
pub open spec fn config_dir_spec(base: Option<Seq<u8>>) -> Seq<u8> {
    join_bytes_spec(
        match base {
            Some(b) => b,
            None => seq![46u8],
        },
        app_dir_name(),
    )
}

/// The bar's configuration directory under `base`: `base/barrita`, or
/// `./barrita` when the user has no configuration directory.
pub fn config_dir_from(base: Option<&[u8]>) -> (r: Vec<u8>)
    ensures
        r@ == config_dir_spec(
            match base {
                Some(b) => Some(b@),
                None => None,
            },
        ),
{
    let name: Vec<u8> = vec![98u8, 97u8, 114u8, 114u8, 105u8, 116u8, 97u8];
    assert(name@ =~= app_dir_name());
    match base {
        Some(b) => join_bytes(b, name.as_slice()),
        None => {
            let dot: Vec<u8> = vec![46u8];
            assert(dot@ =~= seq![46u8]);
            join_bytes(dot.as_slice(), name.as_slice())
        },
    }
}

/// The bar's configuration directory, under the user's configuration
/// directory, as the bytes of a path.
pub fn get_config_dir() -> (r: Vec<u8>)
    ensures
        exists|base: Option<Seq<u8>>| r@ == config_dir_spec(base),
{
    let base = user_config_dir();
    match &base {
        Some(b) => config_dir_from(Some(b.as_slice())),
        None => config_dir_from(None),
    }
}

/// The path of the configuration file in the configuration directory `dir`.
pub fn config_path_in(dir: &[u8]) -> (r: Vec<u8>)
    ensures
        r@ == join_bytes_spec(dir@, config_file_name()),
{
    let name: Vec<u8> = vec![99u8, 111u8, 110u8, 102u8, 105u8, 103u8, 46u8, 116u8, 111u8, 109u8, 108u8];
    assert(name@ =~= config_file_name());
    join_bytes(dir, name.as_slice())
}

/// The path of the bar's configuration file, `config.toml` in its
/// directory, as the bytes of a path.
pub fn get_config_path() -> (r: Vec<u8>)
    ensures
        exists|base: Option<Seq<u8>>| r@ == join_bytes_spec(config_dir_spec(base), config_file_name()),
{
    let dir = get_config_dir();
    config_path_in(dir.as_slice())
}

/// What setting up the bar window takes: its size and position, the number of
/// workspaces and their labels, and the theme settings of the styles.
pub struct AppInit {
    pub width: u32,
    pub height: u32,
    pub x: i32,
    pub y: i32,
    pub workspace_total: i32,
    pub workspace_format: Option<Vec<String>>,
    pub styles: ThemeStyles,
}

fn clone_strings(v: &Vec<String>) -> (r: Vec<String>)
    ensures
        r@ == v@,
{
    let mut r: Vec<String> = Vec::new();
    let mut k: usize = 0;
    while k < v.len()
        invariant
            0 <= k <= v@.len(),
            r@ == v@.take(k as int),
        decreases v@.len() - k,
    {
        r.push(v[k].clone());
        assert(r@ =~= v@.take(k + 1));
        k = k + 1;
    }
    assert(v@.take(k as int) =~= v@);
    r
}

/// The set-up of the bar window for a display of the given size: the window
/// spans it from (0, 0), shows the configured number of workspaces with the
/// configured labels, and takes the theme settings of the configured styles.
pub fn init_app(config: &Config, display_width: u32, display_height: u32) -> (a: AppInit)
    requires
        styles_readable(*config),
    ensures
        a.width == display_width,
        a.height == display_height,
        a.x == 0,
        a.y == 0,
        a.workspace_total == config.workspaces.total_workspaces,
        match config.workspaces.format {
            Some(f) => a.workspace_format matches Some(g) && g@ == f@,
            None => a.workspace_format is None,
        },
        exists|ws: WorkspacesStyle, ms: MusicIconStyle|
            workspaces_style_of(*config, ws) && music_icon_style_of(*config, ms) && a.styles
                == styles_of(ws, ms),
{
    let styles = init_styles(config);
    let workspace_format = match &config.workspaces.format {
        Some(f) => Some(clone_strings(f)),
        None => None,
    };
    AppInit {
        width: display_width,
        height: display_height,
        x: 0,
        y: 0,
        workspace_total: config.workspaces.total_workspaces,
        workspace_format,
        styles,
    }
}

} // verus!
