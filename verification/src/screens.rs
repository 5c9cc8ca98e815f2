//! What the screens show, row by row.

use vstd::prelude::*;

use crate::config::{KeyerConfig, KeyerMode, UsbEmitStyle};
use crate::text::{
    narrow_new, narrow_push, narrow_str, push_decimal, row_new, row_push, row_push_str, row_str,
    NarrowRow, Row,
};
use crate::ui::{MenuItem, MENU_LEN};

verus! {

/// How many menu items are on the screen at a time.
pub const VIEWPORT: usize = 5;

/// Pixels from one menu row to the next.
pub const MENU_ROW_HEIGHT: i32 = 12;

/// Columns that the menu keeps for the labels.
pub const LABEL_WIDTH: usize = 9;

/// How many bytes of decoded text fit the width of the display.
pub const MAX_VISIBLE: usize = crate::text::NARROW_BYTES;

/// A row of text, and how many pixels from the top it is drawn.
#[derive(Debug)]
pub struct TextRow {
    pub y: i32,
    pub text: Row,
}

/// A [`TextRow`] with its characters.
pub struct TextRowView {
    pub y: int,
    pub text: Seq<char>,
}

impl View for TextRow {
    type V = TextRowView;

    open spec fn view(&self) -> TextRowView {
        TextRowView { y: self.y as int, text: crate::text::row_text(self.text) }
    }
}

/// The rows of a screen with their characters.
pub open spec fn rows_view(rows: Seq<TextRow>) -> Seq<TextRowView> {
    rows.map_values(|row: TextRow| row@)
}

/// The name of a mode on the screen.
pub open spec fn mode_text(m: KeyerMode) -> Seq<char> {
    match m {
        KeyerMode::Straight => "Straight"@,
        KeyerMode::IambicA => "IambicA"@,
        KeyerMode::IambicB => "IambicB"@,
        KeyerMode::Bug => "Bug"@,
        KeyerMode::Ultimatic => "Ultimatic"@,
        KeyerMode::SinglePaddle => "Single"@,
    }
}

/// The volume as it is shown: held inside the range of a 32-bit number.
pub open spec fn shown_percent(pct: i64) -> u32 {
    if pct < 0 {
        0
    } else if pct > u32::MAX {
        u32::MAX
    } else {
        pct as u32
    }
}

/// The value of a setting on the screen.
pub open spec fn value_text(cfg: KeyerConfig, item: MenuItem) -> Seq<char> {
    match item {
        MenuItem::Mode => mode_text(cfg.mode),
        MenuItem::Wpm => crate::text::decimal(cfg.speed_wpm as nat),
        MenuItem::Weight => crate::text::decimal(cfg.weight as nat),
        MenuItem::SidetoneFreq => crate::text::decimal(cfg.sidetone_freq as nat),
        MenuItem::SidetoneVolume => crate::text::decimal(
            shown_percent(cfg.sidetone_volume_pct) as nat,
        ),
        MenuItem::HangTimeMs => crate::text::decimal(cfg.hang_time_ms as nat),
        MenuItem::KeysReversed => if cfg.keys_reversed { "Y"@ } else { "N"@ },
        MenuItem::IambicBPercent => crate::text::decimal(cfg.iambic_b_timing_percent as nat),
        MenuItem::FarnsworthWpm => crate::text::decimal(cfg.farnsworth_wpm as nat),
        MenuItem::KeyingCompMs => crate::text::decimal(cfg.keying_compensation_ms as nat),
        MenuItem::UsbEmit => match cfg.usb_emit_style {
            UsbEmitStyle::Paddle => "Paddle"@,
            UsbEmitStyle::Keyed => "Keyed"@,
        },
        MenuItem::Decoder => if cfg.decoder_enabled { "On"@ } else { "Off"@ },
    }
}

/// The title, with an asterisk while the key is down.
pub open spec fn title_text(keyed: bool) -> Seq<char> {
    if keyed {
        "CW Keyer    *"@
    } else {
        "CW Keyer"@
    }
}

/// The bytes as characters, in order, leaving out each one that would make
/// the text longer than `limit` bytes.
pub open spec fn fitted(bytes: Seq<u8>, limit: nat) -> Seq<char>
    decreases bytes.len(),
{
    if bytes.len() == 0 {
        Seq::empty()
    } else {
        let text = fitted(bytes.drop_last(), limit);
        let c = bytes.last() as char;
        if crate::text::text_bytes(text) + crate::text::char_bytes(c) <= limit {
            text.push(c)
        } else {
            text
        }
    }
}

/// The most recent bytes that the display is wide enough for.
pub open spec fn visible(decoded: Seq<u8>) -> Seq<u8> {
    if decoded.len() <= MAX_VISIBLE {
        decoded
    } else {
        decoded.skip(decoded.len() - MAX_VISIBLE)
    }
}

/// The main screen: title, mode, speed and, when the decoder is on and has
/// decoded something, the latest decoded text.
pub open spec fn main_rows(cfg: KeyerConfig, keyed: bool, decoded: Seq<u8>) -> Seq<TextRowView> {
    seq![
        TextRowView { y: 0, text: title_text(keyed) },
        TextRowView { y: 16, text: "Mode: "@ + mode_text(cfg.mode) },
        TextRowView { y: 30, text: "WPM:  "@ + crate::text::decimal(cfg.speed_wpm as nat) },
    ] + (if cfg.decoder_enabled && decoded.len() > 0 {
        seq![TextRowView { y: 44, text: fitted(visible(decoded), MAX_VISIBLE as nat) }]
    } else {
        Seq::empty()
    })
}

/// The first menu item on the screen: the cursor is in the middle, except
/// near the ends of the list.
pub open spec fn viewport_start(selected: int) -> int {
    let start = selected - VIEWPORT / 2;
    if start < 0 {
        0
    } else if start > MENU_LEN - VIEWPORT {
        MENU_LEN - VIEWPORT
    } else {
        start
    }
}

/// One line of the menu: the cursor, the label and the value.
pub open spec fn menu_line(cfg: KeyerConfig, index: int, selected: int, editing: bool) -> Seq<
    char,
> {
    seq![
        if index == selected {
            if editing { '*' } else { '>' }
        } else {
            ' '
        },
    ] + crate::text::padded(MenuItem::ALL@[index].label_text(), LABEL_WIDTH as nat) + value_text(
        cfg,
        MenuItem::ALL@[index],
    )
}

/// The menu: five items around the cursor.
pub open spec fn menu_rows(cfg: KeyerConfig, selected: int, editing: bool) -> Seq<TextRowView> {
    Seq::new(
        VIEWPORT as nat,
        |row: int|
            TextRowView {
                y: row * MENU_ROW_HEIGHT,
                text: menu_line(cfg, viewport_start(selected) + row, selected, editing),
            },
    )
}

/// The labels are short and made of one-byte characters.
proof fn lemma_label(item: MenuItem)
    ensures
        crate::text::is_ascii(item.label_text()),
        item.label_text().len() <= LABEL_WIDTH,
{
    reveal_strlit("Mode");
    reveal_strlit("WPM");
    reveal_strlit("Weight");
    reveal_strlit("Tone Hz");
    reveal_strlit("Volume");
    reveal_strlit("Hang ms");
    reveal_strlit("Reverse");
    reveal_strlit("B Time %");
    reveal_strlit("Farns WPM");
    reveal_strlit("Comp ms");
    reveal_strlit("USB emit");
    reveal_strlit("Decoder");
}

/// The mode names are short and made of one-byte characters.
proof fn lemma_mode_text(m: KeyerMode)
    ensures
        crate::text::is_ascii(mode_text(m)),
        mode_text(m).len() <= 9,
{
    reveal_strlit("Straight");
    reveal_strlit("IambicA");
    reveal_strlit("IambicB");
    reveal_strlit("Bug");
    reveal_strlit("Ultimatic");
    reveal_strlit("Single");
}

/// A value fits its column and is made of one-byte characters.
proof fn lemma_value_text(cfg: KeyerConfig, item: MenuItem)
    ensures
        crate::text::is_ascii(value_text(cfg, item)),
        value_text(cfg, item).len() <= 10,
{
    lemma_mode_text(cfg.mode);
    reveal_strlit("Y");
    reveal_strlit("N");
    reveal_strlit("Paddle");
    reveal_strlit("Keyed");
    reveal_strlit("On");
    reveal_strlit("Off");
    lemma_u32_decimal(cfg.speed_wpm as u32);
    lemma_u32_decimal(cfg.weight as u32);
    lemma_u32_decimal(cfg.sidetone_freq);
    lemma_u32_decimal(shown_percent(cfg.sidetone_volume_pct));
    lemma_u32_decimal(cfg.hang_time_ms);
    lemma_u32_decimal(cfg.iambic_b_timing_percent as u32);
    lemma_u32_decimal(cfg.farnsworth_wpm as u32);
    lemma_u32_decimal(cfg.keying_compensation_ms as u32);
}

/// A 32-bit number has at most ten digits.
proof fn lemma_u32_decimal(v: u32)
    ensures
        crate::text::is_ascii(crate::text::decimal(v as nat)),
        crate::text::decimal(v as nat).len() <= 10,
{
    assert(vstd::arithmetic::power::pow(10, 10) == 10_000_000_000) by {
        reveal_with_fuel(vstd::arithmetic::power::pow, 11);
    }
    crate::text::lemma_decimal(v as nat, 10);
}

/// The name of a mode on the screen.
pub fn mode_label(m: KeyerMode) -> (label: &'static str)
    ensures
        label@ == mode_text(m),
{
    match m {
        KeyerMode::Straight => "Straight",
        KeyerMode::IambicA => "IambicA",
        KeyerMode::IambicB => "IambicB",
        KeyerMode::Bug => "Bug",
        KeyerMode::Ultimatic => "Ultimatic",
        KeyerMode::SinglePaddle => "Single",
    }
}

/// The value of a setting on the screen.
pub fn value_string(cfg: &KeyerConfig, item: MenuItem) -> (value: Row)
    ensures
        crate::text::row_text(value) == value_text(*cfg, item),
{
    proof {
        lemma_value_text(*cfg, item);
        crate::text::lemma_ascii_bytes(value_text(*cfg, item));
    }
    let mut s: Row = row_new();
    match item {
        MenuItem::Mode => {
            let _ = row_push_str(&mut s, mode_label(cfg.mode));
        },
        MenuItem::Wpm => {
            push_decimal(&mut s, cfg.speed_wpm as u32);
        },
        MenuItem::Weight => {
            push_decimal(&mut s, cfg.weight as u32);
        },
        MenuItem::SidetoneFreq => {
            push_decimal(&mut s, cfg.sidetone_freq);
        },
        MenuItem::SidetoneVolume => {
            let pct: i64 = cfg.sidetone_volume_pct;
            let shown: u32 = if pct < 0 {
                0
            } else if pct > 0xffff_ffff {
                0xffff_ffff
            } else {
                pct as u32
            };
            push_decimal(&mut s, shown);
        },
        MenuItem::HangTimeMs => {
            push_decimal(&mut s, cfg.hang_time_ms);
        },
        MenuItem::KeysReversed => {
            let _ = row_push_str(&mut s, if cfg.keys_reversed { "Y" } else { "N" });
        },
        MenuItem::IambicBPercent => {
            push_decimal(&mut s, cfg.iambic_b_timing_percent as u32);
        },
        MenuItem::FarnsworthWpm => {
            push_decimal(&mut s, cfg.farnsworth_wpm as u32);
        },
        MenuItem::KeyingCompMs => {
            push_decimal(&mut s, cfg.keying_compensation_ms as u32);
        },
        MenuItem::UsbEmit => {
            let _ = row_push_str(
                &mut s,
                match cfg.usb_emit_style {
                    UsbEmitStyle::Paddle => "Paddle",
                    UsbEmitStyle::Keyed => "Keyed",
                },
            );
        },
        MenuItem::Decoder => {
            let _ = row_push_str(&mut s, if cfg.decoder_enabled { "On" } else { "Off" });
        },
    }
    assert(crate::text::row_text(s) =~= value_text(*cfg, item));
    s
}

/// A row that holds a text.
fn row_of(text: &str) -> (row: Row)
    requires
        crate::text::text_bytes(text@) <= crate::text::ROW_BYTES,
    ensures
        crate::text::row_text(row) == text@,
{
    let mut row: Row = row_new();
    let _ = row_push_str(&mut row, text);
    assert(crate::text::row_text(row) =~= text@);
    row
}

/// The latest decoded text as a row.
fn decoded_row(decoded: &[u8]) -> (row: Row)
    ensures
        crate::text::row_text(row) == fitted(visible(decoded@), MAX_VISIBLE as nat),
{
    let start: usize = if decoded.len() <= MAX_VISIBLE {
        0
    } else {
        decoded.len() - MAX_VISIBLE
    };
    let ghost shown = visible(decoded@);
    assert(shown =~= decoded@.skip(start as int));
    let mut narrow: NarrowRow = narrow_new();
    let mut i: usize = start;
    assert(shown.take(0) =~= Seq::<u8>::empty());
    while i < decoded.len()
        invariant
            start <= i <= decoded.len(),
            shown == decoded@.skip(start as int),
            crate::text::narrow_text(narrow) == fitted(shown.take(i - start), MAX_VISIBLE as nat),
        decreases decoded.len() - i,
    {
        let ghost so_far = shown.take(i - start + 1);
        assert(so_far.drop_last() =~= shown.take(i - start));
        // A character that does not fit any more is left out.
        let _ = narrow_push(&mut narrow, decoded[i] as char);
        i = i + 1;
    }
    assert(shown.take(i - start) =~= shown);
    proof {
        lemma_fitted_bytes(shown, MAX_VISIBLE as nat);
    }
    row_of(narrow_str(&narrow))
}

/// Append a row to a screen.
fn push_row(rows: &mut Vec<TextRow>, y: i32, text: Row)
    ensures
        rows_view(final(rows)@) == rows_view(old(rows)@).push(
            TextRowView { y: y as int, text: crate::text::row_text(text) },
        ),
{
    rows.push(TextRow { y, text });
    assert(rows_view(rows@) =~= rows_view(old(rows)@).push(
        TextRowView { y: y as int, text: crate::text::row_text(text) },
    ));
}

/// The rows of the main screen.
pub fn draw_main(cfg: &KeyerConfig, keyed: bool, decoded: &[u8]) -> (rows: Vec<TextRow>)
    ensures
        rows_view(rows@) == main_rows(*cfg, keyed, decoded@),
{
    proof {
        reveal_strlit("CW Keyer    *");
        reveal_strlit("CW Keyer");
        reveal_strlit("Mode: ");
        reveal_strlit("WPM:  ");
        crate::text::lemma_ascii_bytes("CW Keyer    *"@);
        crate::text::lemma_ascii_bytes("CW Keyer"@);
        crate::text::lemma_ascii_bytes("Mode: "@);
        crate::text::lemma_ascii_bytes("WPM:  "@);
        lemma_mode_text(cfg.mode);
        crate::text::lemma_ascii_bytes(mode_text(cfg.mode));
    }
    let mut rows: Vec<TextRow> = Vec::new();
    let title = if keyed {
        row_of("CW Keyer    *")
    } else {
        row_of("CW Keyer")
    };
    push_row(&mut rows, 0, title);

    let mut mode = row_of("Mode: ");
    let _ = row_push_str(&mut mode, mode_label(cfg.mode));
    push_row(&mut rows, 16, mode);

    let mut speed = row_of("WPM:  ");
    push_decimal(&mut speed, cfg.speed_wpm as u32);
    push_row(&mut rows, 30, speed);

    if cfg.decoder_enabled && decoded.len() > 0 {
        push_row(&mut rows, 44, decoded_row(decoded));
    }
    assert(rows_view(rows@) =~= main_rows(*cfg, keyed, decoded@));
    rows
}

/// One line of the menu.
fn menu_row(cfg: &KeyerConfig, index: usize, selected: usize, editing: bool) -> (row: Row)
    requires
        index < MENU_LEN,
    ensures
        crate::text::row_text(row) == menu_line(*cfg, index as int, selected as int, editing),
{
    let item = MenuItem::ALL[index];
    let marker: char = if index == selected {
        if editing { '*' } else { '>' }
    } else {
        ' '
    };
    let ghost label = item.label_text();
    proof {
        lemma_label(item);
        lemma_value_text(*cfg, item);
        crate::text::lemma_ascii_bytes(label);
        crate::text::lemma_ascii_bytes(value_text(*cfg, item));
        crate::text::lemma_ascii_bytes(seq![marker]);
    }
    let mut row: Row = row_new();
    let _ = row_push(&mut row, marker);
    assert(crate::text::row_text(row) =~= seq![marker]);
    let _ = row_push_str(&mut row, item.label());
    let mut width: usize = item.label().unicode_len();
    assert(crate::text::padded(label, label.len()) =~= label);
    while width < LABEL_WIDTH
        invariant
            label.len() <= width <= LABEL_WIDTH,
            crate::text::is_ascii(label),
            (marker as u32) < 0x80,
            crate::text::row_text(row) =~= seq![marker] + crate::text::padded(label, width as nat),
        decreases LABEL_WIDTH - width,
    {
        proof {
            let t = crate::text::row_text(row);
            assert(crate::text::is_ascii(t));
            crate::text::lemma_ascii_bytes(t);
        }
        let _ = row_push(&mut row, ' ');
        width = width + 1;
    }
    proof {
        let t = crate::text::row_text(row);
        assert(crate::text::is_ascii(t));
        crate::text::lemma_ascii_bytes(t);
    }
    let value = value_string(cfg, item);
    let _ = row_push_str(&mut row, row_str(&value));
    assert(crate::text::row_text(row) =~= menu_line(
        *cfg,
        index as int,
        selected as int,
        editing,
    ));
    row
}

/// The rows of the menu, with the cursor at `selected`. A cursor beyond the
/// list shows the end of the list, with no line marked.
pub fn draw_menu(cfg: &KeyerConfig, selected: u8, editing: bool) -> (rows: Vec<TextRow>)
    ensures
        rows_view(rows@) == menu_rows(*cfg, selected as int, editing),
{
    let total: usize = MENU_LEN as usize;
    let sel: usize = selected as usize;
    let centred: usize = if sel >= VIEWPORT / 2 { sel - VIEWPORT / 2 } else { 0 };
    let start: usize = if centred <= total - VIEWPORT { centred } else { total - VIEWPORT };
    assert(start == viewport_start(selected as int));
    let mut rows: Vec<TextRow> = Vec::new();
    let mut row: usize = 0;
    while row < VIEWPORT
        invariant
            row <= VIEWPORT,
            sel == selected,
            start == viewport_start(selected as int),
            start + VIEWPORT <= MENU_LEN,
            rows_view(rows@) == menu_rows(*cfg, selected as int, editing).take(row as int),
        decreases VIEWPORT - row,
    {
        let line = menu_row(cfg, start + row, sel, editing);
        push_row(&mut rows, (row as i32) * MENU_ROW_HEIGHT, line);
        row = row + 1;
        assert(rows_view(rows@) =~= menu_rows(*cfg, selected as int, editing).take(row as int));
    }
    assert(rows_view(rows@) =~= menu_rows(*cfg, selected as int, editing));
    rows
}

/// The cursor is always on the screen, the screen always shows items of the
/// list, and exactly the line of the cursor is marked.
pub proof fn law_cursor_is_shown(cfg: KeyerConfig, selected: int, editing: bool, row: int)
    requires
        0 <= selected < MENU_LEN,
        0 <= row < VIEWPORT,
    ensures
        0 <= viewport_start(selected) <= selected < viewport_start(selected) + VIEWPORT
            <= MENU_LEN,
        menu_rows(cfg, selected, editing).len() == VIEWPORT,
        menu_rows(cfg, selected, editing)[row].text[0] == (if viewport_start(selected) + row
            == selected {
            if editing { '*' } else { '>' }
        } else {
            ' '
        }),
{
}

/// Decoded one-byte characters are shown as they are, the latest ones when
/// there are more than fit.
pub proof fn law_decoded_text_is_shown(decoded: Seq<u8>)
    requires
        forall|i: int| 0 <= i < decoded.len() ==> #[trigger] decoded[i] < 0x80,
    ensures
        fitted(visible(decoded), MAX_VISIBLE as nat) =~= visible(decoded).map_values(
            |b: u8| b as char,
        ),
        decoded.len() <= MAX_VISIBLE ==> visible(decoded) == decoded,
        decoded.len() > MAX_VISIBLE ==> visible(decoded).len() == MAX_VISIBLE,
{
    lemma_fitted_ascii(visible(decoded), MAX_VISIBLE as nat);
}

/// Nothing is left out of one-byte characters that are within the limit.
proof fn lemma_fitted_ascii(bytes: Seq<u8>, limit: nat)
    requires
        bytes.len() <= limit,
        forall|i: int| 0 <= i < bytes.len() ==> #[trigger] bytes[i] < 0x80,
    ensures
        fitted(bytes, limit) =~= bytes.map_values(|b: u8| b as char),
    decreases bytes.len(),
{
    if bytes.len() > 0 {
        let rest = bytes.drop_last();
        assert forall|i: int| 0 <= i < rest.len() implies #[trigger] rest[i] < 0x80 by {
            assert(bytes[i] < 0x80);
        }
        lemma_fitted_ascii(rest, limit);
        assert(crate::text::is_ascii(fitted(rest, limit)));
        crate::text::lemma_ascii_bytes(fitted(rest, limit));
        assert(bytes[bytes.len() - 1] < 0x80);
    }
}

/// A text has no more characters than bytes.
proof fn lemma_text_len(text: Seq<char>)
    ensures
        text.len() <= crate::text::text_bytes(text),
    decreases text.len(),
{
    if text.len() > 0 {
        lemma_text_len(text.drop_last());
    }
}

/// What is kept is within the limit.
proof fn lemma_fitted_bytes(bytes: Seq<u8>, limit: nat)
    ensures
        crate::text::text_bytes(fitted(bytes, limit)) <= limit,
    decreases bytes.len(),
{
    if bytes.len() > 0 {
        let text = fitted(bytes.drop_last(), limit);
        lemma_fitted_bytes(bytes.drop_last(), limit);
        let c = bytes.last() as char;
        assert(text.push(c).drop_last() =~= text);
    }
}

/// Every row of the main screen fits the display: at most 21 glyphs of six
/// pixels, ten pixels high, on 128 by 64 pixels.
pub proof fn law_main_screen_fits(cfg: KeyerConfig, keyed: bool, decoded: Seq<u8>, i: int)
    requires
        0 <= i < main_rows(cfg, keyed, decoded).len(),
    ensures
        main_rows(cfg, keyed, decoded)[i].text.len() * 6 <= 128,
        0 <= main_rows(cfg, keyed, decoded)[i].y <= 64 - 10,
{
    reveal_strlit("CW Keyer    *");
    reveal_strlit("CW Keyer");
    reveal_strlit("Mode: ");
    reveal_strlit("WPM:  ");
    lemma_mode_text(cfg.mode);
    lemma_u32_decimal(cfg.speed_wpm as u32);
    let shown = visible(decoded);
    lemma_fitted_bytes(shown, MAX_VISIBLE as nat);
    lemma_text_len(fitted(shown, MAX_VISIBLE as nat));
}

/// Every row of the menu fits the display.
pub proof fn law_menu_fits(cfg: KeyerConfig, selected: int, editing: bool, row: int)
    requires
        0 <= selected < MENU_LEN,
        0 <= row < VIEWPORT,
    ensures
        menu_rows(cfg, selected, editing)[row].text.len() * 6 <= 128,
        0 <= menu_rows(cfg, selected, editing)[row].y <= 64 - 10,
{
    let item = MenuItem::ALL@[viewport_start(selected) + row];
    lemma_label(item);
    lemma_value_text(cfg, item);
}

/// Two settings agree in the item's own field.
pub open spec fn same_setting(a: KeyerConfig, b: KeyerConfig, item: MenuItem) -> bool {
    match item {
        MenuItem::Mode => a.mode == b.mode,
        MenuItem::Wpm => a.speed_wpm == b.speed_wpm,
        MenuItem::Weight => a.weight == b.weight,
        MenuItem::SidetoneFreq => a.sidetone_freq == b.sidetone_freq,
        MenuItem::SidetoneVolume => a.sidetone_volume_pct == b.sidetone_volume_pct,
        MenuItem::HangTimeMs => a.hang_time_ms == b.hang_time_ms,
        MenuItem::KeysReversed => a.keys_reversed == b.keys_reversed,
        MenuItem::IambicBPercent => a.iambic_b_timing_percent == b.iambic_b_timing_percent,
        MenuItem::FarnsworthWpm => a.farnsworth_wpm == b.farnsworth_wpm,
        MenuItem::KeyingCompMs => a.keying_compensation_ms == b.keying_compensation_ms,
        MenuItem::UsbEmit => a.usb_emit_style == b.usb_emit_style,
        MenuItem::Decoder => a.decoder_enabled == b.decoder_enabled,
    }
}

/// What is shown for a ranged item is its own field in decimal: read back as a
/// number it is the field's value. The volume is held inside a 32-bit number.
pub proof fn law_shown_number_is_the_value(cfg: KeyerConfig)
    ensures
        crate::text::is_numeral(value_text(cfg, MenuItem::Wpm), cfg.speed_wpm as int),
        crate::text::is_numeral(value_text(cfg, MenuItem::Weight), cfg.weight as int),
        crate::text::is_numeral(value_text(cfg, MenuItem::SidetoneFreq), cfg.sidetone_freq as int),
        crate::text::is_numeral(value_text(cfg, MenuItem::HangTimeMs), cfg.hang_time_ms as int),
        crate::text::is_numeral(
            value_text(cfg, MenuItem::IambicBPercent),
            cfg.iambic_b_timing_percent as int,
        ),
        crate::text::is_numeral(
            value_text(cfg, MenuItem::FarnsworthWpm),
            cfg.farnsworth_wpm as int,
        ),
        crate::text::is_numeral(
            value_text(cfg, MenuItem::KeyingCompMs),
            cfg.keying_compensation_ms as int,
        ),
        crate::text::is_numeral(
            value_text(cfg, MenuItem::SidetoneVolume),
            if cfg.sidetone_volume_pct < 0 {
                0
            } else if cfg.sidetone_volume_pct > 0xffff_ffff {
                0xffff_ffff
            } else {
                cfg.sidetone_volume_pct as int
            },
        ),
{
    crate::text::law_decimal_reads_back(cfg.speed_wpm as nat);
    crate::text::law_decimal_reads_back(cfg.weight as nat);
    crate::text::law_decimal_reads_back(cfg.sidetone_freq as nat);
    crate::text::law_decimal_reads_back(cfg.hang_time_ms as nat);
    crate::text::law_decimal_reads_back(cfg.iambic_b_timing_percent as nat);
    crate::text::law_decimal_reads_back(cfg.farnsworth_wpm as nat);
    crate::text::law_decimal_reads_back(cfg.keying_compensation_ms as nat);
    crate::text::law_decimal_reads_back(shown_percent(cfg.sidetone_volume_pct) as nat);
}

/// The items with short lists show their own field by name: Y or N, Paddle or
/// Keyed, On or Off, and the mode.
pub proof fn law_shown_name_is_the_value(cfg: KeyerConfig)
    ensures
        cfg.keys_reversed ==> value_text(cfg, MenuItem::KeysReversed) == seq!['Y'],
        !cfg.keys_reversed ==> value_text(cfg, MenuItem::KeysReversed) == seq!['N'],
        cfg.usb_emit_style == UsbEmitStyle::Paddle ==> value_text(cfg, MenuItem::UsbEmit)
            == "Paddle"@,
        cfg.usb_emit_style == UsbEmitStyle::Keyed ==> value_text(cfg, MenuItem::UsbEmit)
            == "Keyed"@,
        cfg.decoder_enabled ==> value_text(cfg, MenuItem::Decoder) == "On"@,
        !cfg.decoder_enabled ==> value_text(cfg, MenuItem::Decoder) == "Off"@,
        value_text(cfg, MenuItem::Mode) == (match cfg.mode {
            KeyerMode::Straight => "Straight"@,
            KeyerMode::IambicA => "IambicA"@,
            KeyerMode::IambicB => "IambicB"@,
            KeyerMode::Bug => "Bug"@,
            KeyerMode::Ultimatic => "Ultimatic"@,
            KeyerMode::SinglePaddle => "Single"@,
        }),
{
    reveal_strlit("Y");
    reveal_strlit("N");
    assert("Y"@ =~= seq!['Y']);
    assert("N"@ =~= seq!['N']);
}

/// Different modes have different names.
proof fn lemma_mode_names_differ(a: KeyerMode, b: KeyerMode)
    requires
        a != b,
    ensures
        mode_text(a) != mode_text(b),
{
    reveal_strlit("Straight");
    reveal_strlit("IambicA");
    reveal_strlit("IambicB");
    reveal_strlit("Bug");
    reveal_strlit("Ultimatic");
    reveal_strlit("Single");
    assert("IambicA"@[6] != "IambicB"@[6]);
    assert(mode_text(a).len() != mode_text(b).len() || mode_text(a)[6] != mode_text(b)[6]
        || mode_text(a)[0] != mode_text(b)[0]);
}

/// The value shown for an item depends on that item's own field and on it
/// alone: settings that agree in the field show the same text, and settings
/// that differ in it, both in range, show different texts.
pub proof fn law_value_follows_its_own_field(a: KeyerConfig, b: KeyerConfig, item: MenuItem)
    ensures
        same_setting(a, b, item) ==> value_text(a, item) == value_text(b, item),
        !same_setting(a, b, item) && crate::ui::item_in_range(a, item) && crate::ui::item_in_range(
            b,
            item,
        ) ==> value_text(a, item) != value_text(b, item),
{
    law_shown_number_is_the_value(a);
    law_shown_number_is_the_value(b);
    law_shown_name_is_the_value(a);
    law_shown_name_is_the_value(b);
    reveal_strlit("Paddle");
    reveal_strlit("Keyed");
    reveal_strlit("On");
    reveal_strlit("Off");
    assert("Paddle"@.len() != "Keyed"@.len());
    assert("On"@.len() != "Off"@.len());
    assert(seq!['Y'][0] != seq!['N'][0]);
    if a.mode != b.mode {
        lemma_mode_names_differ(a.mode, b.mode);
    }
}

/// The main screen has the title with an asterisk while keyed, then the mode
/// by name, then the speed as a number, each at its place; the decoded text
/// follows exactly when the decoder is on and has decoded something.
pub proof fn law_main_screen_content(cfg: KeyerConfig, keyed: bool, decoded: Seq<u8>)
    ensures
        ({
            let rows = main_rows(cfg, keyed, decoded);
            &&& rows.len() == (if cfg.decoder_enabled && decoded.len() > 0 { 4int } else { 3 })
            &&& rows[0].y == 0 && rows[1].y == 16 && rows[2].y == 30
            &&& keyed ==> rows[0].text == "CW Keyer    *"@
            &&& !keyed ==> rows[0].text == "CW Keyer"@
            &&& rows[1].text == "Mode: "@ + value_text(cfg, MenuItem::Mode)
            &&& rows[2].text.take(6) == "WPM:  "@
            &&& crate::text::is_numeral(rows[2].text.skip(6), cfg.speed_wpm as int)
            &&& cfg.decoder_enabled && decoded.len() > 0 ==> rows[3].y == 44 && rows[3].text
                == fitted(visible(decoded), 21)
        }),
{
    reveal_strlit("WPM:  ");
    let speed = crate::text::decimal(cfg.speed_wpm as nat);
    crate::text::law_decimal_reads_back(cfg.speed_wpm as nat);
    assert(("WPM:  "@ + speed).take(6) =~= "WPM:  "@);
    assert(("WPM:  "@ + speed).skip(6) =~= speed);
}

/// A row of the menu is the cursor, the label of the item in a column of nine,
/// and the value of that same item; rows are twelve pixels apart and show
/// items that follow one another.
pub proof fn law_menu_row_content(cfg: KeyerConfig, selected: int, editing: bool, row: int)
    requires
        0 <= selected,
        0 <= row < 5,
    ensures
        ({
            let rows = menu_rows(cfg, selected, editing);
            let index = viewport_start(selected) + row;
            let item = MenuItem::ALL@[index];
            let label = item.label_text();
            &&& rows.len() == 5
            &&& 0 <= index < 12
            &&& rows[row].y == 12 * row
            &&& rows[row].text[0] == (if index != selected {
                ' '
            } else if editing {
                '*'
            } else {
                '>'
            })
            &&& rows[row].text.subrange(1, 1 + label.len() as int) == label
            &&& forall|i: int| 1 + label.len() <= i < 10 ==> #[trigger] rows[row].text[i] == ' '
            &&& rows[row].text.skip(10) == value_text(cfg, item)
        }),
{
    let index = viewport_start(selected) + row;
    let item = MenuItem::ALL@[index];
    let label = item.label_text();
    let value = value_text(cfg, item);
    lemma_label(item);
    crate::text::law_padding_is_on_the_right(label, 9);
    let text = menu_rows(cfg, selected, editing)[row].text;
    assert(text.subrange(1, 1 + label.len() as int) =~= label);
    assert(text.skip(10) =~= value);
}

/// The window of the menu: at the start for the first three items, at the end
/// for the last three and beyond, and otherwise with the cursor in its middle.
pub proof fn law_window_is_centred(selected: int)
    requires
        0 <= selected,
    ensures
        selected <= 2 ==> viewport_start(selected) == 0,
        2 <= selected <= 9 ==> viewport_start(selected) + 2 == selected,
        selected >= 9 ==> viewport_start(selected) == 7,
{
}

/// Of decoded text the end is shown: all of it, or the last 21 bytes.
pub proof fn law_visible_text_is_the_end(decoded: Seq<u8>, i: int)
    requires
        0 <= i < visible(decoded).len(),
    ensures
        visible(decoded).len() == (if decoded.len() <= 21 { decoded.len() } else { 21 }),
        visible(decoded)[i] == decoded[decoded.len() - visible(decoded).len() + i],
{
}

/// Bytes become characters one by one: each byte is kept as its character if
/// the text then still fits, and left out otherwise.
pub proof fn law_text_is_fitted_byte_by_byte(bytes: Seq<u8>, b: u8, limit: nat)
    ensures
        fitted(Seq::<u8>::empty(), limit).len() == 0,
        crate::text::text_bytes(fitted(bytes, limit)) <= limit,
        ({
            let before = fitted(bytes, limit);
            let size: nat = if b < 0x80 { 1 } else { 2 };
            fitted(bytes.push(b), limit) == (if crate::text::text_bytes(before) + size <= limit {
                before.push(b as char)
            } else {
                before
            })
        }),
{
    assert(bytes.push(b).drop_last() =~= bytes);
    lemma_fitted_bytes(bytes, limit);
}

} // verus!
