use vstd::prelude::*;
use crate::menu::menu_state::GameInfo;

verus! {

/// Finds the ROMs that the menu offers.
pub struct GameScanner;

/// Cartridge types (header byte 0x147) whose RAM is kept by a battery.
pub open spec fn battery_cart_type(t: u8) -> bool {
    t == 0x03 || t == 0x06 || t == 0x09 || (0x0F <= t <= 0x13) || t >= 0xFC
}

/// What std's `str::to_lowercase` gives for the characters `s`.
pub uninterp spec fn lowercase(s: Seq<char>) -> Seq<char>;

/// Trusted: std's `str::to_lowercase`, taken to depend on the characters of `s` alone, so
/// its result is named `lowercase`. Which characters it maps to which (Unicode's
/// lower-case mapping) is left unsaid.
#[verifier::external_body]
pub(crate) fn to_lower(s: &str) -> (r: String)
    ensures
        r@ == lowercase(s@),
{
    s.to_lowercase()
}

/// `a` comes strictly before `b` when they are compared character by character by code
/// point, a proper prefix coming first.
pub open spec fn chars_before(a: Seq<char>, b: Seq<char>) -> bool
    decreases a.len(),
{
    if b.len() == 0 {
        false
    } else if a.len() == 0 {
        true
    } else if a[0] != b[0] {
        a[0] < b[0]
    } else {
        chars_before(a.drop_first(), b.drop_first())
    }
}

proof fn lemma_before_transitive(a: Seq<char>, b: Seq<char>, c: Seq<char>)
    requires
        chars_before(a, b),
        chars_before(b, c),
    ensures
        chars_before(a, c),
    decreases a.len(),
{
    if a.len() > 0 && a[0] == b[0] && b[0] == c[0] {
        lemma_before_transitive(a.drop_first(), b.drop_first(), c.drop_first());
    }
}

proof fn lemma_before_total(a: Seq<char>, b: Seq<char>)
    requires
        a != b,
    ensures
        chars_before(a, b) || chars_before(b, a),
    decreases a.len(),
{
    if a.len() == 0 && b.len() == 0 {
        assert(a =~= b);
    } else if a.len() > 0 && b.len() > 0 && a[0] == b[0] {
        if a.drop_first() == b.drop_first() {
            assert(a =~= seq![a[0]] + a.drop_first());
            assert(b =~= seq![b[0]] + b.drop_first());
        }
        lemma_before_total(a.drop_first(), b.drop_first());
    } else if a.len() > 0 && b.len() > 0 {
        assert(a[0] < b[0] || b[0] < a[0]);
    }
}

/// The key by which the menu orders its games: the name in lower case.
pub open spec fn name_key(g: GameInfo) -> Seq<char> {
    lowercase(g.name@)
}

/// `r` holds the first `k` games of `g`, game `i` of `r` being game `p[i]` of `g`, ordered
/// by `name_key`, games with equal keys in their order in `g`.
pub open spec fn ordered_upto(g: Seq<GameInfo>, k: int, r: Seq<GameInfo>, p: Seq<int>) -> bool {
    &&& r.len() == k && p.len() == k
    &&& forall|i: int| 0 <= i < k ==> 0 <= #[trigger] p[i] < k && r[i] == g[p[i]]
    &&& forall|i: int, j: int|
        #![trigger p[i], p[j]]
        0 <= i < j < k ==> p[i] != p[j] && (chars_before(name_key(r[i]), name_key(r[j])) || (
        name_key(r[i]) == name_key(r[j]) && p[i] < p[j]))
}

/// `r` holds the games of `g` ordered by lower-cased name, games whose names are equal in
/// lower case in their order in `g`, game `i` of `r` being game `p[i]` of `g`.
pub open spec fn sorted_by_name(g: Seq<GameInfo>, r: Seq<GameInfo>, p: Seq<int>) -> bool {
    ordered_upto(g, g.len() as int, r, p)
}

#[verifier::spinoff_prover]
proof fn lemma_insert_ordered(g: Seq<GameInfo>, k: int, r: Seq<GameInfo>, p: Seq<int>, j: int)
    requires
        ordered_upto(g, k, r, p),
        0 <= k < g.len(),
        0 <= j <= r.len(),
        forall|m: int| 0 <= m < j ==> !chars_before(name_key(g[k]), #[trigger] name_key(r[m])),
        j < r.len() ==> chars_before(name_key(g[k]), name_key(r[j])),
    ensures
        ordered_upto(g, k + 1, r.insert(j, g[k]), p.insert(j, k)),
{
    let x = g[k];
    let r2 = r.insert(j, x);
    let p2 = p.insert(j, k);
    r.insert_ensures(j, x);
    p.insert_ensures(j, k);
    assert forall|i: int| 0 <= i < k + 1 implies 0 <= #[trigger] p2[i] < k + 1 && r2[i] == g[p2[i]] by {
        if i > j {
            assert(p2[i] == p[i - 1] && r2[i] == r[i - 1]);
        }
    }
    assert forall|i: int, i2: int| 0 <= i < i2 < k + 1 implies #[trigger] p2[i] != #[trigger] p2[i2] && (
    chars_before(name_key(r2[i]), name_key(r2[i2])) || (name_key(r2[i]) == name_key(r2[i2]) && p2[i]
        < p2[i2])) by {
        if i2 < j {
            assert(p[i] != p[i2]);
        } else if i2 == j {
            assert(p[i] < k);
            assert(!chars_before(name_key(x), name_key(r[i])));
            if name_key(r[i]) != name_key(x) {
                lemma_before_total(name_key(r[i]), name_key(x));
            }
        } else if i < j {
            assert(p2[i2] == p[i2 - 1] && r2[i2] == r[i2 - 1]);
            assert(p[i] != p[i2 - 1]);
        } else if i == j {
            assert(p2[i2] == p[i2 - 1] && r2[i2] == r[i2 - 1]);
            assert(p[i2 - 1] < k);
            if i2 - 1 > j {
                assert(p[j] != p[i2 - 1]);
                if chars_before(name_key(r[j]), name_key(r[i2 - 1])) {
                    lemma_before_transitive(name_key(x), name_key(r[j]), name_key(r[i2 - 1]));
                }
            }
        } else {
            assert(p2[i2] == p[i2 - 1] && r2[i2] == r[i2 - 1]);
            assert(p2[i] == p[i - 1] && r2[i] == r[i - 1]);
            assert(p[i - 1] != p[i2 - 1]);
        }
    }
    assert(r2.len() == k + 1 && p2.len() == k + 1);
}

/// Whether the characters of `a` come strictly before those of `b` (see `chars_before`).
fn str_before(a: &str, b: &str) -> (r: bool)
    ensures
        r == chars_before(a@, b@),
{
    let la = a.unicode_len();
    let lb = b.unicode_len();
    let mut i: usize = 0;
    assert(a@.skip(0) =~= a@ && b@.skip(0) =~= b@);
    while i < la && i < lb && a.get_char(i) == b.get_char(i)
        invariant
            i <= la && i <= lb,
            la == a@.len() && lb == b@.len(),
            chars_before(a@, b@) == chars_before(a@.skip(i as int), b@.skip(i as int)),
        decreases la - i,
    {
        proof {
            assert(a@.skip(i as int).drop_first() =~= a@.skip(i + 1));
            assert(b@.skip(i as int).drop_first() =~= b@.skip(i + 1));
        }
        i = i + 1;
    }
    if i == lb {
        false
    } else if i == la {
        true
    } else {
        let ca = a.get_char(i);
        let cb = b.get_char(i);
        ca < cb
    }
}

impl GameScanner {
    /// Whether a file extension names a ROM: "gb" or "gbc", as bytes.
    pub fn is_rom_extension(ext: &[u8]) -> (r: bool)
        ensures
            r == (ext@ == seq![0x67u8, 0x62u8] || ext@ == seq![0x67u8, 0x62u8, 0x63u8]),
    {
        if ext.len() == 2 {
            let r = ext[0] == 0x67 && ext[1] == 0x62;
            proof {
                if r {
                    assert(ext@ =~= seq![0x67u8, 0x62u8]);
                }
            }
            r
        } else if ext.len() == 3 {
            let r = ext[0] == 0x67 && ext[1] == 0x62 && ext[2] == 0x63;
            proof {
                if r {
                    assert(ext@ =~= seq![0x67u8, 0x62u8, 0x63u8]);
                }
            }
            r
        } else {
            false
        }
    }

    /// Whether a ROM image declares battery-backed RAM: it is long enough to hold the
    /// header byte 0x148 and its cartridge type is one with a battery.
    pub fn is_battery_backed(content: &[u8]) -> (r: bool)
        ensures
            r == (content@.len() >= 0x149 && battery_cart_type(content@[0x147])),
    {
        if content.len() >= 0x149 {
            let t = content[0x147];
            t == 0x03 || t == 0x06 || t == 0x09 || (0x0F <= t && t <= 0x13) || t >= 0xFC
        } else {
            false
        }
    }

    /// The games ordered by name in lower case; games whose names are equal in lower case
    /// keep their order.
    pub fn sort_games(games: Vec<GameInfo>) -> (r: Vec<GameInfo>)
        ensures
            exists|p: Seq<int>| sorted_by_name(games@, r@, p),
    {
        let ghost g = games@;
        let n = games.len();
        let mut rest = games;
        let mut out: Vec<GameInfo> = Vec::new();
        let mut keys: Vec<String> = Vec::new();
        let ghost mut p: Seq<int> = Seq::empty();
        let mut k: usize = 0;
        while k < n
            invariant
                n == g.len(),
                k <= n,
                rest@ == g.subrange(k as int, n as int),
                ordered_upto(g, k as int, out@, p),
                keys@.len() == out@.len(),
                forall|m: int| 0 <= m < keys@.len() ==> #[trigger] keys@[m]@ == name_key(out@[m]),
            decreases n - k,
        {
            let x = rest.remove(0);
            assert(x == g[k as int]);
            let key = to_lower(x.name.as_str());
            let mut j: usize = 0;
            while j < out.len() && !str_before(key.as_str(), keys[j].as_str())
                invariant
                    j <= out@.len(),
                    keys@.len() == out@.len(),
                    forall|m: int| 0 <= m < keys@.len() ==> #[trigger] keys@[m]@ == name_key(out@[m]),
                    key@ == name_key(x),
                    forall|m: int| 0 <= m < j ==> !chars_before(name_key(x), #[trigger] name_key(out@[m])),
                decreases out@.len() - j,
            {
                j = j + 1;
            }
            proof {
                lemma_insert_ordered(g, k as int, out@, p, j as int);
                p = p.insert(j as int, k as int);
                out@.insert_ensures(j as int, x);
                keys@.insert_ensures(j as int, key);
            }
            out.insert(j, x);
            keys.insert(j, key);
            proof {
                assert(rest@ =~= g.subrange(k + 1, n as int));
            }
            k = k + 1;
        }
        assert(sorted_by_name(g, out@, p));
        out
    }

    /// The menu entry for a ROM file read from disk.
    pub fn game_info(name: String, path: String, file_size: u64, content: &[u8], is_test_rom: bool) -> (r: GameInfo)
        ensures
            r.name == name,
            r.path == path,
            r.file_size == file_size,
            r.is_battery_backed == (content@.len() >= 0x149 && battery_cart_type(content@[0x147])),
            r.is_test_rom == is_test_rom,
    {
        let is_battery_backed = Self::is_battery_backed(content);
        GameInfo { name, path, file_size, is_battery_backed, is_test_rom }
    }
}

} // verus!
