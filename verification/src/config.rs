use vstd::prelude::*;
use vstd::string::StrSliceExecFns;

verus! {

/// A 24-bit colour.
#[derive(Clone, Copy, Debug, PartialEq, Eq, Structural)]
pub struct RgbColor {
    pub r: u8,
    pub g: u8,
    pub b: u8,
}

/// The colour palette of the dashboard.
#[derive(Clone, Copy, Debug, PartialEq, Eq, Structural)]
pub struct Theme {
    pub background: RgbColor,
    pub foreground: RgbColor,
    pub selection: RgbColor,
    pub black: RgbColor,
    pub red: RgbColor,
    pub green: RgbColor,
    pub yellow: RgbColor,
    pub blue: RgbColor,
    pub magenta: RgbColor,
    pub cyan: RgbColor,
    pub gray: RgbColor,
}

impl Default for Theme {
    /// The built-in palette, used when no configuration file overrides it.
    fn default() -> (r: Self)
        ensures
            r == Theme::spec_default(),
    {
        Theme {
            background: RgbColor { r: 9, g: 14, b: 19 },
            foreground: RgbColor { r: 197, g: 201, b: 199 },
            selection: RgbColor { r: 230, g: 195, b: 132 },
            black: RgbColor { r: 13, g: 12, b: 12 },
            red: RgbColor { r: 228, g: 104, b: 118 },
            green: RgbColor { r: 138, g: 154, b: 123 },
            yellow: RgbColor { r: 196, g: 178, b: 138 },
            blue: RgbColor { r: 127, g: 180, b: 202 },
            magenta: RgbColor { r: 162, g: 146, b: 163 },
            cyan: RgbColor { r: 122, g: 168, b: 159 },
            gray: RgbColor { r: 164, g: 167, b: 164 },
        }
    }
}

impl Theme {
    /// The built-in palette.
    pub open spec fn spec_default() -> Theme {
        Theme {
            background: RgbColor { r: 9, g: 14, b: 19 },
            foreground: RgbColor { r: 197, g: 201, b: 199 },
            selection: RgbColor { r: 230, g: 195, b: 132 },
            black: RgbColor { r: 13, g: 12, b: 12 },
            red: RgbColor { r: 228, g: 104, b: 118 },
            green: RgbColor { r: 138, g: 154, b: 123 },
            yellow: RgbColor { r: 196, g: 178, b: 138 },
            blue: RgbColor { r: 127, g: 180, b: 202 },
            magenta: RgbColor { r: 162, g: 146, b: 163 },
            cyan: RgbColor { r: 122, g: 168, b: 159 },
            gray: RgbColor { r: 164, g: 167, b: 164 },
        }
    }
}

/// The glyphs the dashboard draws with.
#[derive(Debug)]
pub struct Icons {
    pub global_timer: String,
    pub task_list: String,
    pub play: String,
    pub pause: String,
    pub stop: String,
    pub pending: String,
    pub done: String,
    pub select: String,
    pub progress_filled: String,
    pub progress_empty: String,
    pub input_cursor: String,
    pub separator: String,
    pub header_left: String,
    pub header_right: String,
}

impl Clone for Icons {
    fn clone(&self) -> (r: Self)
        ensures
            r@ == self@,
    {
        let r = Icons {
            global_timer: self.global_timer.clone(),
            task_list: self.task_list.clone(),
            play: self.play.clone(),
            pause: self.pause.clone(),
            stop: self.stop.clone(),
            pending: self.pending.clone(),
            done: self.done.clone(),
            select: self.select.clone(),
            progress_filled: self.progress_filled.clone(),
            progress_empty: self.progress_empty.clone(),
            input_cursor: self.input_cursor.clone(),
            separator: self.separator.clone(),
            header_left: self.header_left.clone(),
            header_right: self.header_right.clone(),
        };
        proof {
            assert(r@ =~= self@);
        }
        r
    }
}

/// Mathematical image of the glyph set, field by field.
#[verifier::ext_equal]
pub ghost struct IconsModel {
    pub global_timer: Seq<char>,
    pub task_list: Seq<char>,
    pub play: Seq<char>,
    pub pause: Seq<char>,
    pub stop: Seq<char>,
    pub pending: Seq<char>,
    pub done: Seq<char>,
    pub select: Seq<char>,
    pub progress_filled: Seq<char>,
    pub progress_empty: Seq<char>,
    pub input_cursor: Seq<char>,
    pub separator: Seq<char>,
    pub header_left: Seq<char>,
    pub header_right: Seq<char>,
}

impl View for Icons {
    type V = IconsModel;

    open spec fn view(&self) -> IconsModel {
        IconsModel {
            global_timer: self.global_timer@,
            task_list: self.task_list@,
            play: self.play@,
            pause: self.pause@,
            stop: self.stop@,
            pending: self.pending@,
            done: self.done@,
            select: self.select@,
            progress_filled: self.progress_filled@,
            progress_empty: self.progress_empty@,
            input_cursor: self.input_cursor@,
            separator: self.separator@,
            header_left: self.header_left@,
            header_right: self.header_right@,
        }
    }
}

impl Default for Icons {
    /// The built-in glyph set, used when no configuration file overrides it.
    fn default() -> (r: Self)
        ensures
            r@.global_timer == "Δ"@,
            r@.task_list == "⬢"@,
            r@.play == "▶"@,
            r@.pause == "⏸"@,
            r@.stop == "■"@,
            r@.pending == "☐"@,
            r@.done == "☑"@,
            r@.select == "▸"@,
            r@.progress_filled == "█"@,
            r@.progress_empty == "░"@,
            r@.input_cursor == "▊"@,
            r@.separator == "│"@,
            r@.header_left == "⟪ "@,
            r@.header_right == " ⟫"@,
    {
        Icons {
            global_timer: String::from_str("Δ"),
            task_list: String::from_str("⬢"),
            play: String::from_str("▶"),
            pause: String::from_str("⏸"),
            stop: String::from_str("■"),
            pending: String::from_str("☐"),
            done: String::from_str("☑"),
            select: String::from_str("▸"),
            progress_filled: String::from_str("█"),
            progress_empty: String::from_str("░"),
            input_cursor: String::from_str("▊"),
            separator: String::from_str("│"),
            header_left: String::from_str("⟪ "),
            header_right: String::from_str(" ⟫"),
        }
    }
}

/// Appearance settings, loaded once at startup.  Opaque to the task and
/// timer logic: the core only carries it.
#[derive(Debug)]
pub struct Config {
    pub theme: Theme,
    pub icons: Icons,
}

/// Mathematical image of the appearance settings.
#[verifier::ext_equal]
pub ghost struct ConfigModel {
    pub theme: Theme,
    pub icons: IconsModel,
}

impl View for Config {
    type V = ConfigModel;

    open spec fn view(&self) -> ConfigModel {
        ConfigModel { theme: self.theme, icons: self.icons@ }
    }
}

impl Clone for Config {
    fn clone(&self) -> (r: Self)
        ensures
            r@ == self@,
    {
        let r = Config { theme: self.theme, icons: self.icons.clone() };
        proof {
            assert(r@ =~= self@);
        }
        r
    }
}

impl Default for Config {
    fn default() -> (r: Self)
        ensures
            r.theme == Theme::spec_default(),
    {
        Config { theme: Theme::default(), icons: Icons::default() }
    }
}

/// The value of a hexadecimal digit, or 16 for any other character.
pub open spec fn spec_hex_val(c: char) -> int {
    if 48 <= c as u32 <= 57 {
        c as u32 - 48
    } else if 97 <= c as u32 <= 102 {
        c as u32 - 87
    } else if 65 <= c as u32 <= 70 {
        c as u32 - 55
    } else {
        16int
    }
}

pub open spec fn spec_is_hex_digit(c: char) -> bool {
    spec_hex_val(c) < 16
}

/// A well-formed colour string: a `#` followed by six hexadecimal digits.
pub open spec fn spec_valid_hex_color(s: Seq<char>) -> bool {
    &&& s.len() == 7
    &&& s[0] == '#'
    &&& forall|i: int| 1 <= i < 7 ==> spec_is_hex_digit(#[trigger] s[i])
}

/// The colour a well-formed colour string names.
pub open spec fn spec_hex_color(s: Seq<char>) -> RgbColor {
    RgbColor {
        r: (spec_hex_val(s[1]) * 16 + spec_hex_val(s[2])) as u8,
        g: (spec_hex_val(s[3]) * 16 + spec_hex_val(s[4])) as u8,
        b: (spec_hex_val(s[5]) * 16 + spec_hex_val(s[6])) as u8,
    }
}

/// The value of one hexadecimal digit character.
fn hex_val(c: char) -> (r: u32)
    ensures
        r == spec_hex_val(c),
{
    let u = c as u32;
    if 48 <= u && u <= 57 {
        u - 48
    } else if 97 <= u && u <= 102 {
        u - 87
    } else if 65 <= u && u <= 70 {
        u - 55
    } else {
        16
    }
}

/// Reads a `#RRGGBB` colour string.  Returns the colour exactly when the
/// string is well formed; any other string is a configuration error.
pub fn parse_hex_color(s: &str) -> (r: Option<RgbColor>)
    ensures
        r is Some <==> spec_valid_hex_color(s@),
        r matches Some(c) ==> c == spec_hex_color(s@),
{
    if s.unicode_len() != 7 {
        return None;
    }
    if s.get_char(0) != '#' {
        return None;
    }
    let mut vals: [u32; 6] = [0, 0, 0, 0, 0, 0];
    let mut i: usize = 1;
    while i < 7
        invariant
            1 <= i <= 7,
            s@.len() == 7,
            forall|j: int| 1 <= j < i ==> spec_is_hex_digit(#[trigger] s@[j]),
            forall|j: int| 1 <= j < i ==> vals@[j - 1] == spec_hex_val(#[trigger] s@[j]),
        decreases 7 - i,
    {
        let c = s.get_char(i);
        let v = hex_val(c);
        if v >= 16 {
            return None;
        }
        vals[i - 1] = v;
        i = i + 1;
    }
    proof {
        assert(forall|j: int| 0 <= j < 6 ==> #[trigger] vals@[j] == spec_hex_val(s@[j + 1]));
        assert(forall|j: int| 0 <= j < 6 ==> #[trigger] vals@[j] < 16);
    }
    Some(
        RgbColor {
            r: (vals[0] * 16 + vals[1]) as u8,
            g: (vals[2] * 16 + vals[3]) as u8,
            b: (vals[4] * 16 + vals[5]) as u8,
        },
    )
}

} // verus!
