use vstd::prelude::*;

verus! {

/// The character of a decimal digit `d < 10`.
pub open spec fn digit_char(d: nat) -> char {
    if d == 0 { '0' }
    else if d == 1 { '1' }
    else if d == 2 { '2' }
    else if d == 3 { '3' }
    else if d == 4 { '4' }
    else if d == 5 { '5' }
    else if d == 6 { '6' }
    else if d == 7 { '7' }
    else if d == 8 { '8' }
    else { '9' }
}

/// `n` written in decimal, without leading zeros (`0` is written `"0"`).
pub open spec fn decimal(n: nat) -> Seq<char>
    decreases n,
{
    if n < 10 {
        seq![digit_char(n)]
    } else {
        decimal(n / 10).push(digit_char(n % 10))
    }
}

/// The label of the scene at position `index` of a glTF file.
pub open spec fn scene_label(index: nat) -> Seq<char> {
    seq!['S', 'c', 'e', 'n', 'e'] + decimal(index)
}

/// The asset path of the sub-asset `label` of the file at `file`.
pub open spec fn labeled_path(file: Seq<char>, label: Seq<char>) -> Seq<char> {
    file.push('#') + label
}

/// The one-character string of the decimal digit `d`.
fn digit_str(d: u64) -> (r: &'static str)
    requires
        d < 10,
    ensures
        r@ == seq![digit_char(d as nat)],
{
    proof {
        reveal_strlit("0");
        reveal_strlit("1");
        reveal_strlit("2");
        reveal_strlit("3");
        reveal_strlit("4");
        reveal_strlit("5");
        reveal_strlit("6");
        reveal_strlit("7");
        reveal_strlit("8");
        reveal_strlit("9");
    }
    if d == 0 { "0" }
    else if d == 1 { "1" }
    else if d == 2 { "2" }
    else if d == 3 { "3" }
    else if d == 4 { "4" }
    else if d == 5 { "5" }
    else if d == 6 { "6" }
    else if d == 7 { "7" }
    else if d == 8 { "8" }
    else { "9" }
}

/// Appends `n` in decimal to `s`.
fn append_decimal(s: &mut String, n: u64)
    ensures
        final(s)@ == old(s)@ + decimal(n as nat),
    decreases n,
{
    if n >= 10 {
        append_decimal(s, n / 10);
    }
    s.append(digit_str(n % 10));
    assert(s@ =~= old(s)@ + decimal(n as nat));
}

/// Whether `c` occurs in `s` at all.
pub open spec fn holds_char(s: Seq<char>, c: char) -> bool {
    exists|i: int| 0 <= i < s.len() && s[i] == c
}

/// Whether the character `c` occurs in `s`.
fn contains_char(s: &str, c: char) -> (r: bool)
    ensures
        r == holds_char(s@, c),
{
    let n = s.unicode_len();
    let mut i: usize = 0;
    while i < n
        invariant
            n == s@.len(),
            i <= n,
            forall|j: int| 0 <= j < i ==> s@[j] != c,
        decreases n - i,
    {
        if s.get_char(i) == c {
            return true;
        }
        i = i + 1;
    }
    false
}

/// The asset path of the scene at position `scene` of the glTF file at `file`,
/// as in `models/Helmet.gltf#Scene0`.
///
/// A `#` in `file` would be read as the start of the label, so such a file
/// path gives `None`.
pub fn scene_asset_path(file: &str, scene: u64) -> (r: Option<String>)
    ensures
        holds_char(file@, '#') <==> r is None,
        r matches Some(p) ==> p@ == labeled_path(file@, scene_label(scene as nat)),
{
    if contains_char(file, '#') {
        return None;
    }
    let mut p = String::from_str(file);
    p.append("#Scene");
    append_decimal(&mut p, scene);
    proof {
        reveal_strlit("#Scene");
        assert(p@ =~= labeled_path(file@, scene_label(scene as nat)));
    }
    Some(p)
}

} // verus!
