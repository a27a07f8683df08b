//! The key layout: rows of key definitions, each with three labels, one per
//! shift layer, and the allow-list filter that disables character keys.

use vstd::prelude::*;
use crate::text::{accepts, accepts_spec, owned, str_eq};

verus! {

/// Number of shift layers (lower case, upper case, symbols).
pub const LAYER_COUNT: usize = 3;

pub const ID_ENTER: &'static str = "ok";
pub const ID_CANCEL: &'static str = "cancel";
pub const ID_BACKSPACE: &'static str = "backspace";
pub const ID_LEFT: &'static str = "left";
pub const ID_RIGHT: &'static str = "right";
pub const ID_INSERT: &'static str = "insert";
pub const ID_DELETE: &'static str = "delete";
pub const ID_SHIFT: &'static str = "shift";
pub const ID_SPACER: &'static str = "spacer";
pub const ID_DISABLED: &'static str = "disabled";

pub const SYMBOL_ENTER: &'static str = "✔";
pub const SYMBOL_CANCEL: &'static str = "🗙";
pub const SYMBOL_BACKSPACE: &'static str = "⌫";
pub const SYMBOL_LEFT: &'static str = "◁";
pub const SYMBOL_RIGHT: &'static str = "▷";
pub const SYMBOL_INSERT: &'static str = "Ins";
pub const SYMBOL_DELETE: &'static str = "Del";
pub const SYMBOL_SHIFT: &'static str = "⇧";

/// The logical identity of a key, the same on every layer.
#[derive(Clone, Copy, Debug, PartialEq, Eq, Structural)]
pub enum KeyId {
    /// A plain key that types its label.
    Character,
    /// Empty space in a row, with a width and nothing else.
    Spacer,
    Backspace,
    Delete,
    Insert,
    Shift,
    Left,
    Right,
    Enter,
    Cancel,
}

/// What a key event names: a key id, a key that was rendered disabled, or
/// an id this keyboard does not know.
#[derive(Clone, Copy, Debug, PartialEq, Eq, Structural)]
pub enum KeyName {
    Key(KeyId),
    Disabled,
    Unknown,
}

/// The identifier of a key as carried by a key event; a character key has
/// the empty identifier.
pub open spec fn id_name(id: KeyId) -> Seq<char> {
    match id {
        KeyId::Character => Seq::empty(),
        KeyId::Spacer => ID_SPACER@,
        KeyId::Backspace => ID_BACKSPACE@,
        KeyId::Delete => ID_DELETE@,
        KeyId::Insert => ID_INSERT@,
        KeyId::Shift => ID_SHIFT@,
        KeyId::Left => ID_LEFT@,
        KeyId::Right => ID_RIGHT@,
        KeyId::Enter => ID_ENTER@,
        KeyId::Cancel => ID_CANCEL@,
    }
}

/// The identifier a key event carries for a key with this id.
pub fn key_id_name(id: KeyId) -> (r: &'static str)
    ensures
        r@ == id_name(id),
{
    match id {
        KeyId::Character => {
            proof {
                reveal_strlit("");
            }
            ""
        },
        KeyId::Spacer => ID_SPACER,
        KeyId::Backspace => ID_BACKSPACE,
        KeyId::Delete => ID_DELETE,
        KeyId::Insert => ID_INSERT,
        KeyId::Shift => ID_SHIFT,
        KeyId::Left => ID_LEFT,
        KeyId::Right => ID_RIGHT,
        KeyId::Enter => ID_ENTER,
        KeyId::Cancel => ID_CANCEL,
    }
}

/// How a key event's identifier is read.
pub open spec fn key_name_spec(name: Seq<char>) -> KeyName {
    if name == Seq::<char>::empty() {
        KeyName::Key(KeyId::Character)
    } else if name == ID_DISABLED@ {
        KeyName::Disabled
    } else if name == ID_BACKSPACE@ {
        KeyName::Key(KeyId::Backspace)
    } else if name == ID_DELETE@ {
        KeyName::Key(KeyId::Delete)
    } else if name == ID_INSERT@ {
        KeyName::Key(KeyId::Insert)
    } else if name == ID_SHIFT@ {
        KeyName::Key(KeyId::Shift)
    } else if name == ID_LEFT@ {
        KeyName::Key(KeyId::Left)
    } else if name == ID_RIGHT@ {
        KeyName::Key(KeyId::Right)
    } else if name == ID_ENTER@ {
        KeyName::Key(KeyId::Enter)
    } else if name == ID_CANCEL@ {
        KeyName::Key(KeyId::Cancel)
    } else {
        KeyName::Unknown
    }
}

/// Reads the identifier of a key event.
pub fn key_name(name: &str) -> (r: KeyName)
    ensures
        r == key_name_spec(name@),
{
    if name.unicode_len() == 0 {
        assert(name@ =~= Seq::<char>::empty());
        KeyName::Key(KeyId::Character)
    } else if str_eq(name, ID_DISABLED) {
        KeyName::Disabled
    } else if str_eq(name, ID_BACKSPACE) {
        KeyName::Key(KeyId::Backspace)
    } else if str_eq(name, ID_DELETE) {
        KeyName::Key(KeyId::Delete)
    } else if str_eq(name, ID_INSERT) {
        KeyName::Key(KeyId::Insert)
    } else if str_eq(name, ID_SHIFT) {
        KeyName::Key(KeyId::Shift)
    } else if str_eq(name, ID_LEFT) {
        KeyName::Key(KeyId::Left)
    } else if str_eq(name, ID_RIGHT) {
        KeyName::Key(KeyId::Right)
    } else if str_eq(name, ID_ENTER) {
        KeyName::Key(KeyId::Enter)
    } else if str_eq(name, ID_CANCEL) {
        KeyName::Key(KeyId::Cancel)
    } else {
        proof {
            assert(name@ != Seq::<char>::empty());
        }
        KeyName::Unknown
    }
}

/// One key of the layout. The width is in quarters of a standard key.
pub struct KeyDef {
    pub width: u32,
    pub id: KeyId,
    pub labels: [String; 3],
}

/// A key as it stands on one layer: its label there and whether it can be
/// pressed.
pub struct Key {
    pub width: u32,
    pub id: KeyId,
    pub label: String,
    pub enabled: bool,
}

/// Whether a key with this id and label is enabled under the allow-list:
/// structural keys always are, character keys when the list accepts their
/// label.
pub open spec fn key_enabled_spec(accept: Seq<char>, id: KeyId, label: Seq<char>) -> bool {
    id != KeyId::Character || accepts_spec(accept, label)
}

/// Decides whether a key is enabled under the allow-list `accept`.
pub fn key_enabled(accept: &str, id: KeyId, label: &str) -> (r: bool)
    ensures
        r == key_enabled_spec(accept@, id, label@),
{
    match id {
        KeyId::Character => accepts(accept, label),
        _ => true,
    }
}

/// Ids of the layout's keys, row by row.
pub open spec fn layout_ids() -> Seq<Seq<KeyId>> {
    seq![
        seq![KeyId::Spacer, KeyId::Character, KeyId::Character, KeyId::Character, KeyId::Character, KeyId::Character, KeyId::Character, KeyId::Character, KeyId::Character, KeyId::Character, KeyId::Character, KeyId::Character, KeyId::Character, KeyId::Backspace],
        seq![KeyId::Delete, KeyId::Character, KeyId::Character, KeyId::Character, KeyId::Character, KeyId::Character, KeyId::Character, KeyId::Character, KeyId::Character, KeyId::Character, KeyId::Character, KeyId::Character, KeyId::Character, KeyId::Insert],
        seq![KeyId::Shift, KeyId::Character, KeyId::Character, KeyId::Character, KeyId::Character, KeyId::Character, KeyId::Character, KeyId::Character, KeyId::Character, KeyId::Character, KeyId::Character, KeyId::Spacer],
        seq![KeyId::Cancel, KeyId::Spacer, KeyId::Left, KeyId::Character, KeyId::Right, KeyId::Spacer, KeyId::Enter],
    ]
}

/// Widths of the layout's keys, in quarters of a standard key, row by row.
pub open spec fn layout_widths() -> Seq<Seq<u32>> {
    seq![
        seq![2, 4, 4, 4, 4, 4, 4, 4, 4, 4, 4, 4, 4, 8],
        seq![4, 4, 4, 4, 4, 4, 4, 4, 4, 4, 4, 4, 4, 4],
        seq![7, 4, 4, 4, 4, 4, 4, 4, 4, 4, 4, 12],
        seq![12, 1, 4, 32, 4, 1, 12],
    ]
}

/// Labels of the layout's keys on each layer, row by row.
pub open spec fn layout_labels() -> Seq<Seq<Seq<Seq<char>>>> {
    seq![
        seq![
            seq![Seq::empty(), Seq::empty(), Seq::empty()],
            seq!["q"@, "Q"@, "1"@],
            seq!["w"@, "W"@, "2"@],
            seq!["e"@, "E"@, "3"@],
            seq!["r"@, "R"@, "4"@],
            seq!["t"@, "T"@, "5"@],
            seq!["y"@, "Y"@, "6"@],
            seq!["u"@, "U"@, "7"@],
            seq!["i"@, "I"@, "8"@],
            seq!["o"@, "O"@, "9"@],
            seq!["p"@, "P"@, "0"@],
            seq!["-"@, "_"@, "¬"@],
            seq!["+"@, "="@, "€"@],
            seq![SYMBOL_BACKSPACE@, SYMBOL_BACKSPACE@, SYMBOL_BACKSPACE@],
        ],
        seq![
            seq![SYMBOL_DELETE@, SYMBOL_DELETE@, SYMBOL_DELETE@],
            seq!["a"@, "A"@, "!"@],
            seq!["s"@, "S"@, "\""@],
            seq!["d"@, "D"@, "£"@],
            seq!["f"@, "F"@, "$"@],
            seq!["g"@, "G"@, "%"@],
            seq!["h"@, "H"@, "^"@],
            seq!["j"@, "J"@, "&"@],
            seq!["k"@, "K"@, "*"@],
            seq!["l"@, "L"@, "("@],
            seq![";"@, ":"@, ")"@],
            seq!["'"@, "@"@, "`"@],
            seq!["#"@, "~"@, "#"@],
            seq![SYMBOL_INSERT@, SYMBOL_INSERT@, SYMBOL_INSERT@],
        ],
        seq![
            seq![SYMBOL_SHIFT@, SYMBOL_SHIFT@, SYMBOL_SHIFT@],
            seq!["z"@, "Z"@, "{"@],
            seq!["x"@, "X"@, "}"@],
            seq!["c"@, "C"@, "["@],
            seq!["v"@, "V"@, "]"@],
            seq!["b"@, "B"@, "<"@],
            seq!["n"@, "N"@, ">"@],
            seq!["m"@, "M"@, "|"@],
            seq![","@, "<"@, ","@],
            seq!["."@, ">"@, "."@],
            seq!["/"@, "?"@, "\\"@],
            seq![Seq::empty(), Seq::empty(), Seq::empty()],
        ],
        seq![
            seq![SYMBOL_CANCEL@, SYMBOL_CANCEL@, SYMBOL_CANCEL@],
            seq![Seq::empty(), Seq::empty(), Seq::empty()],
            seq![SYMBOL_LEFT@, SYMBOL_LEFT@, SYMBOL_LEFT@],
            seq![" "@, " "@, " "@],
            seq![SYMBOL_RIGHT@, SYMBOL_RIGHT@, SYMBOL_RIGHT@],
            seq![Seq::empty(), Seq::empty(), Seq::empty()],
            seq![SYMBOL_ENTER@, SYMBOL_ENTER@, SYMBOL_ENTER@],
        ],
    ]
}

/// A row of the layout matches the expected ids, widths and labels, and each
/// character key types one character on every layer.
pub open spec fn row_matches(row: Seq<KeyDef>, ids: Seq<KeyId>, widths: Seq<u32>, labels: Seq<Seq<Seq<char>>>) -> bool {
    &&& row.len() == ids.len()
    &&& row.len() == widths.len()
    &&& row.len() == labels.len()
    &&& forall|j: int, l: int| 0 <= j < row.len() && 0 <= l < LAYER_COUNT
        ==> (#[trigger] row[j].labels[l]@) == labels[j][l]
    &&& forall|j: int| 0 <= j < row.len() ==> (#[trigger] row[j]).id == ids[j] && row[j].width == widths[j]
    &&& forall|j: int, l: int| 0 <= j < row.len() && 0 <= l < LAYER_COUNT && row[j].id == KeyId::Character
        ==> (#[trigger] row[j].labels[l]@).len() == 1
}

/// The layout as a whole matches `layout_ids`, `layout_widths` and
/// `layout_labels`.
pub open spec fn layout_matches(rows: Seq<Vec<KeyDef>>) -> bool {
    &&& rows.len() == layout_ids().len()
    &&& forall|i: int| 0 <= i < rows.len() ==> row_matches(#[trigger] rows[i]@, layout_ids()[i], layout_widths()[i], layout_labels()[i])
}

fn char_key(lower: &str, upper: &str, symbol: &str) -> (k: KeyDef)
    ensures
        k.width == 4,
        k.id == KeyId::Character,
        k.labels[0]@ == lower@,
        k.labels[1]@ == upper@,
        k.labels[2]@ == symbol@,
{
    KeyDef { width: 4, id: KeyId::Character, labels: [owned(lower), owned(upper), owned(symbol)] }
}

fn wide_char_key(width: u32, label: &str) -> (k: KeyDef)
    ensures
        k.width == width,
        k.id == KeyId::Character,
        forall|l: int| 0 <= l < LAYER_COUNT ==> k.labels[l]@ == label@,
{
    KeyDef { width, id: KeyId::Character, labels: [owned(label), owned(label), owned(label)] }
}

fn special_key(width: u32, id: KeyId, symbol: &str) -> (k: KeyDef)
    ensures
        k.width == width,
        k.id == id,
        forall|l: int| 0 <= l < LAYER_COUNT ==> k.labels[l]@ == symbol@,
{
    KeyDef { width, id, labels: [owned(symbol), owned(symbol), owned(symbol)] }
}

fn spacer(width: u32) -> (k: KeyDef)
    ensures
        k.width == width,
        k.id == KeyId::Spacer,
        forall|l: int| 0 <= l < LAYER_COUNT ==> k.labels[l]@ == Seq::<char>::empty(),
{
    KeyDef { width, id: KeyId::Spacer, labels: [String::new(), String::new(), String::new()] }
}

fn keyset_row_0() -> (row: Vec<KeyDef>)
    ensures
        row_matches(row@, layout_ids()[0], layout_widths()[0], layout_labels()[0]),
{
    let row = vec![
        spacer(2),
        char_key("q", "Q", "1"),
        char_key("w", "W", "2"),
        char_key("e", "E", "3"),
        char_key("r", "R", "4"),
        char_key("t", "T", "5"),
        char_key("y", "Y", "6"),
        char_key("u", "U", "7"),
        char_key("i", "I", "8"),
        char_key("o", "O", "9"),
        char_key("p", "P", "0"),
        char_key("-", "_", "¬"),
        char_key("+", "=", "€"),
        special_key(8, KeyId::Backspace, SYMBOL_BACKSPACE),
    ];
    proof {
        reveal_strlit("q");
        reveal_strlit("Q");
        reveal_strlit("1");
        reveal_strlit("w");
        reveal_strlit("W");
        reveal_strlit("2");
        reveal_strlit("e");
        reveal_strlit("E");
        reveal_strlit("3");
        reveal_strlit("r");
        reveal_strlit("R");
        reveal_strlit("4");
        reveal_strlit("t");
        reveal_strlit("T");
        reveal_strlit("5");
        reveal_strlit("y");
        reveal_strlit("Y");
        reveal_strlit("6");
        reveal_strlit("u");
        reveal_strlit("U");
        reveal_strlit("7");
        reveal_strlit("i");
        reveal_strlit("I");
        reveal_strlit("8");
        reveal_strlit("o");
        reveal_strlit("O");
        reveal_strlit("9");
        reveal_strlit("p");
        reveal_strlit("P");
        reveal_strlit("0");
        reveal_strlit("-");
        reveal_strlit("_");
        reveal_strlit("¬");
        reveal_strlit("+");
        reveal_strlit("=");
        reveal_strlit("€");
    }
    row
}

fn keyset_row_1() -> (row: Vec<KeyDef>)
    ensures
        row_matches(row@, layout_ids()[1], layout_widths()[1], layout_labels()[1]),
{
    let row = vec![
        special_key(4, KeyId::Delete, SYMBOL_DELETE),
        char_key("a", "A", "!"),
        char_key("s", "S", "\""),
        char_key("d", "D", "£"),
        char_key("f", "F", "$"),
        char_key("g", "G", "%"),
        char_key("h", "H", "^"),
        char_key("j", "J", "&"),
        char_key("k", "K", "*"),
        char_key("l", "L", "("),
        char_key(";", ":", ")"),
        char_key("'", "@", "`"),
        char_key("#", "~", "#"),
        special_key(4, KeyId::Insert, SYMBOL_INSERT),
    ];
    proof {
        reveal_strlit("a");
        reveal_strlit("A");
        reveal_strlit("!");
        reveal_strlit("s");
        reveal_strlit("S");
        reveal_strlit("\"");
        reveal_strlit("d");
        reveal_strlit("D");
        reveal_strlit("£");
        reveal_strlit("f");
        reveal_strlit("F");
        reveal_strlit("$");
        reveal_strlit("g");
        reveal_strlit("G");
        reveal_strlit("%");
        reveal_strlit("h");
        reveal_strlit("H");
        reveal_strlit("^");
        reveal_strlit("j");
        reveal_strlit("J");
        reveal_strlit("&");
        reveal_strlit("k");
        reveal_strlit("K");
        reveal_strlit("*");
        reveal_strlit("l");
        reveal_strlit("L");
        reveal_strlit("(");
        reveal_strlit(")");
        reveal_strlit(";");
        reveal_strlit(":");
        reveal_strlit("'");
        reveal_strlit("@");
        reveal_strlit("`");
        reveal_strlit("#");
        reveal_strlit("~");
    }
    row
}

fn keyset_row_2() -> (row: Vec<KeyDef>)
    ensures
        row_matches(row@, layout_ids()[2], layout_widths()[2], layout_labels()[2]),
{
    let row = vec![
        special_key(7, KeyId::Shift, SYMBOL_SHIFT),
        char_key("z", "Z", "{"),
        char_key("x", "X", "}"),
        char_key("c", "C", "["),
        char_key("v", "V", "]"),
        char_key("b", "B", "<"),
        char_key("n", "N", ">"),
        char_key("m", "M", "|"),
        char_key(",", "<", ","),
        char_key(".", ">", "."),
        char_key("/", "?", "\\"),
        spacer(12),
    ];
    proof {
        reveal_strlit("z");
        reveal_strlit("Z");
        reveal_strlit("{");
        reveal_strlit("x");
        reveal_strlit("X");
        reveal_strlit("}");
        reveal_strlit("c");
        reveal_strlit("C");
        reveal_strlit("[");
        reveal_strlit("v");
        reveal_strlit("V");
        reveal_strlit("]");
        reveal_strlit("b");
        reveal_strlit("B");
        reveal_strlit("<");
        reveal_strlit("n");
        reveal_strlit("N");
        reveal_strlit(">");
        reveal_strlit("m");
        reveal_strlit("M");
        reveal_strlit("|");
        reveal_strlit(",");
        reveal_strlit(".");
        reveal_strlit("/");
        reveal_strlit("?");
        reveal_strlit("\\");
    }
    row
}

fn keyset_row_3() -> (row: Vec<KeyDef>)
    ensures
        row_matches(row@, layout_ids()[3], layout_widths()[3], layout_labels()[3]),
{
    let row = vec![
        special_key(12, KeyId::Cancel, SYMBOL_CANCEL),
        spacer(1),
        special_key(4, KeyId::Left, SYMBOL_LEFT),
        wide_char_key(32, " "),
        special_key(4, KeyId::Right, SYMBOL_RIGHT),
        spacer(1),
        special_key(12, KeyId::Enter, SYMBOL_ENTER),
    ];
    proof {
        reveal_strlit(" ");
    }
    row
}

/// The keyboard's layout: four rows, each key with a label per layer.
pub fn define_keysets() -> (keys: Vec<Vec<KeyDef>>)
    ensures
        layout_matches(keys@),
{
    let keys = vec![keyset_row_0(), keyset_row_1(), keyset_row_2(), keyset_row_3()];
    keys
}

/// A key as seen on one layer: width, id, label and whether it is enabled.
pub type KeyView = (u32, KeyId, Seq<char>, bool);

/// The key `d` as it stands on `layer` under the allow-list `accept`.
pub open spec fn key_on_layer(d: KeyDef, layer: int, accept: Seq<char>) -> KeyView {
    (d.width, d.id, d.labels[layer]@, key_enabled_spec(accept, d.id, d.labels[layer]@))
}

/// The whole layout as it stands on `layer`.
pub open spec fn layer_view(keys: Seq<Vec<KeyDef>>, layer: int, accept: Seq<char>) -> Seq<Seq<KeyView>> {
    Seq::new(keys.len(), |i: int| Seq::new(keys[i]@.len(), |j: int| key_on_layer(keys[i]@[j], layer, accept)))
}

/// The view of one key of a computed layer.
pub open spec fn key_view(k: Key) -> KeyView {
    (k.width, k.id, k.label@, k.enabled)
}

/// The view of a computed layer.
pub open spec fn keys_view(rows: Seq<Vec<Key>>) -> Seq<Seq<KeyView>> {
    Seq::new(rows.len(), |i: int| Seq::new(rows[i]@.len(), |j: int| key_view(rows[i]@[j])))
}

/// The layout's keys on `layer`, each with its label there and its enabled
/// flag under the allow-list `accept`.
pub fn layer_keys(keys: &Vec<Vec<KeyDef>>, layer: usize, accept: &str) -> (r: Vec<Vec<Key>>)
    requires
        layer < LAYER_COUNT,
    ensures
        keys_view(r@) == layer_view(keys@, layer as int, accept@),
{
    let mut r: Vec<Vec<Key>> = Vec::new();
    let mut i: usize = 0;
    while i < keys.len()
        invariant
            layer < LAYER_COUNT,
            i <= keys@.len(),
            r@.len() == i,
            forall|a: int| 0 <= a < i ==> (#[trigger] r@[a])@.len() == keys@[a]@.len(),
            forall|a: int, b: int| 0 <= a < i && 0 <= b < keys@[a]@.len()
                ==> key_view(#[trigger] r@[a]@[b]) == key_on_layer(keys@[a]@[b], layer as int, accept@),
        decreases keys@.len() - i,
    {
        let row = &keys[i];
        let mut out: Vec<Key> = Vec::new();
        let mut j: usize = 0;
        while j < row.len()
            invariant
                layer < LAYER_COUNT,
                row@ == keys@[i as int]@,
                j <= row@.len(),
                out@.len() == j,
                forall|b: int| 0 <= b < j
                    ==> key_view(#[trigger] out@[b]) == key_on_layer(row@[b], layer as int, accept@),
            decreases row@.len() - j,
        {
            let d = &row[j];
            let label = d.labels[layer].clone();
            let enabled = key_enabled(accept, d.id, label.as_str());
            out.push(Key { width: d.width, id: d.id, label, enabled });
            j = j + 1;
        }
        r.push(out);
        i = i + 1;
    }
    assert(keys_view(r@) =~= layer_view(keys@, layer as int, accept@)) by {
        assert forall|a: int| 0 <= a < r@.len() implies keys_view(r@)[a] =~= layer_view(keys@, layer as int, accept@)[a] by {
        }
    }
    r
}

/// Every layer holds the same keys in the same places: at each position the
/// width and the id do not depend on the layer, only the label does.
pub proof fn lemma_layers_share_positions(keys: Seq<Vec<KeyDef>>, accept: Seq<char>, l1: int, l2: int, i: int, j: int)
    requires
        0 <= l1 < LAYER_COUNT,
        0 <= l2 < LAYER_COUNT,
        0 <= i < keys.len(),
        0 <= j < keys[i]@.len(),
    ensures
        layer_view(keys, l1, accept).len() == layer_view(keys, l2, accept).len(),
        layer_view(keys, l1, accept)[i].len() == layer_view(keys, l2, accept)[i].len(),
        layer_view(keys, l1, accept)[i][j].0 == layer_view(keys, l2, accept)[i][j].0,
        layer_view(keys, l1, accept)[i][j].1 == layer_view(keys, l2, accept)[i][j].1,
{
}

/// Reading the identifier of any key that can be pressed gives back its id.
pub proof fn lemma_key_names_round_trip(id: KeyId)
    requires
        id != KeyId::Spacer,
    ensures
        key_name_spec(id_name(id)) == KeyName::Key(id),
{
    reveal_strlit("ok");
    reveal_strlit("cancel");
    reveal_strlit("disabled");
    reveal_strlit("backspace");
    reveal_strlit("delete");
    reveal_strlit("insert");
    reveal_strlit("shift");
    reveal_strlit("left");
    reveal_strlit("right");
    assert(ID_ENTER@.len() == 2 && ID_ENTER@[0] == 'o');
    assert(ID_CANCEL@.len() == 6 && ID_CANCEL@[0] == 'c');
    assert(ID_DISABLED@.len() == 8 && ID_DISABLED@[0] == 'd');
    assert(ID_BACKSPACE@.len() == 9 && ID_BACKSPACE@[0] == 'b');
    assert(ID_DELETE@.len() == 6 && ID_DELETE@[0] == 'd');
    assert(ID_INSERT@.len() == 6 && ID_INSERT@[0] == 'i');
    assert(ID_SHIFT@.len() == 5 && ID_SHIFT@[0] == 's');
    assert(ID_LEFT@.len() == 4 && ID_LEFT@[0] == 'l');
    assert(ID_RIGHT@.len() == 5 && ID_RIGHT@[0] == 'r');
}

/// The allow-list only ever disables character keys: a structural key is
/// enabled whatever the list holds.
pub proof fn lemma_structural_keys_enabled(accept: Seq<char>, id: KeyId, label: Seq<char>)
    requires
        id != KeyId::Character,
    ensures
        key_enabled_spec(accept, id, label),
{
}

/// The layer that follows `layer` under the shift key.
pub open spec fn next_layer_spec(layer: int) -> int {
    (layer + 1) % (LAYER_COUNT as int)
}

/// Rotating through the layers `LAYER_COUNT` times leads back to the layer
/// one started from.
pub proof fn lemma_rotation_cycle(layer: int)
    requires
        0 <= layer < LAYER_COUNT,
    ensures
        next_layer_spec(next_layer_spec(next_layer_spec(layer))) == layer,
        next_layer_spec(layer) != layer,
        0 <= next_layer_spec(layer) < LAYER_COUNT,
{
}

} // verus!
