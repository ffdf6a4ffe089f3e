//! Ordering version lists from the newest to the oldest by semantic version.
use vstd::prelude::*;
use vstd::seq_lib::*;
use vstd::string::*;

verus! {

#[verifier::external_type_specification]
#[verifier::external_body]
pub struct ExSemverVersion(semver::Version);

/// The plain parts of a semantic version: major, minor, patch, pre-release
/// and build metadata.
pub type SemVerView = (u64, u64, u64, Seq<char>, Seq<char>);

/// A parsed semantic version.
pub struct SemVer {
    major: u64,
    minor: u64,
    patch: u64,
    pre: String,
    build: String,
    version: semver::Version,
}

impl SemVer {
    /// The plain parts of the version.
    pub closed spec fn spec_view(&self) -> SemVerView {
        (self.major, self.minor, self.patch, self.pre@, self.build@)
    }
}

/// Names the parts of the version that `semver::Version::from_str` parses
/// from a text; `None` when the text is not a semantic version.
pub uninterp spec fn semver_parse(text: Seq<char>) -> Option<SemVerView>;

/// Names the result of `semver::Version::cmp` on two versions with these
/// parts: -1, 0 or 1 for less, equal or greater.
pub uninterp spec fn semver_order(a: SemVerView, b: SemVerView) -> int;

/// Calls `semver::Version::from_str` on a text and keeps the parts of the
/// version beside it. The contract claims that the parts are the named result
/// of parsing this text, and nothing when it does not parse.
#[verifier::external_body]
fn parse_semver(text: &str) -> (r: Option<SemVer>)
    ensures
        match r {
            Some(v) => semver_parse(text@) == Some(v.spec_view()),
            None => semver_parse(text@) is None,
        },
{
    text.parse::<semver::Version>().ok().map(
        |version| SemVer {
            major: version.major,
            minor: version.minor,
            patch: version.patch,
            pre: version.pre.as_str().to_owned(),
            build: version.build.as_str().to_owned(),
            version,
        },
    )
}

/// Calls `semver::Version::cmp` and gives -1, 0 or 1 for less, equal or
/// greater. The contract claims that the result is the named order of the
/// two versions' parts, and, as `Ord` documents of a total order, that
/// comparing them the other way round gives the opposite result and that
/// a version no older than `a` is no older than `b` when `a` is no older
/// than `b`.
#[verifier::external_body]
fn compare_semver(a: &SemVer, b: &SemVer) -> (r: i8)
    ensures
        r == semver_order(a.spec_view(), b.spec_view()),
        -1 <= r <= 1,
        semver_order(b.spec_view(), a.spec_view()) == -r,
        r >= 0 ==> forall|t: Seq<char>|
            #[trigger] semver_parse(t) is Some && semver_order(semver_parse(t).unwrap(), a.spec_view())
                >= 0 ==> semver_order(semver_parse(t).unwrap(), b.spec_view()) >= 0,
{
    match a.version.cmp(&b.version) {
        std::cmp::Ordering::Less => -1,
        std::cmp::Ordering::Equal => 0,
        std::cmp::Ordering::Greater => 1,
    }
}

/// A version text without its leading `v`, if it has one.
pub open spec fn strip_v(s: Seq<char>) -> Seq<char> {
    if s.len() > 0 && s[0] == 'v' {
        s.drop_first()
    } else {
        s
    }
}

/// The semantic version of a version text, which may start with `v`.
pub open spec fn version_key(s: Seq<char>) -> Option<SemVerView> {
    semver_parse(strip_v(s))
}

/// A leading `v` never changes how a version text sorts: a text with one
/// `v` put in front of it has the semantic version of the text itself, and
/// a text that does not start with `v` has the semantic version it parses to.
pub proof fn lemma_leading_v_is_ignored(t: Seq<char>)
    ensures
        version_key(seq!['v'] + t) == semver_parse(t),
        t.len() == 0 || t[0] != 'v' ==> version_key(t) == semver_parse(t),
{
    let s = seq!['v'] + t;
    assert(s.len() > 0 && s[0] == 'v');
    assert(s.drop_first() =~= t);
}

/// How two version texts compare in a list from the newest to the oldest:
/// -1 when `a` comes before `b`, 1 when it comes after, and 0 when they are
/// equal or either is not a semantic version.
pub open spec fn desc_order(a: Seq<char>, b: Seq<char>) -> int {
    match (version_key(a), version_key(b)) {
        (Some(x), Some(y)) => semver_order(y, x),
        _ => 0,
    }
}

/// No version text of the list comes before the one that precedes it: each
/// is no newer than the previous one, wherever both are semantic versions.
pub open spec fn sorted_desc(s: Seq<Seq<char>>) -> bool {
    forall|a: int, b: int|
        0 <= a && b == a + 1 && b < s.len() ==> desc_order(#[trigger] s[b], #[trigger] s[a]) >= 0
}

/// Every text of the list is a semantic version, with or without a leading
/// `v`.
pub open spec fn all_semver(s: Seq<Seq<char>>) -> bool {
    forall|k: int| 0 <= k < s.len() ==> (#[trigger] version_key(s[k])) is Some
}

/// No version text of the list comes before any that precedes it.
pub open spec fn sorted_desc_all(s: Seq<Seq<char>>) -> bool {
    forall|a: int, b: int| 0 <= a < b < s.len() ==> desc_order(#[trigger] s[b], #[trigger] s[a]) >= 0
}

/// `output` is `input` rearranged by `p`: its `k`-th string is the `p[k]`-th
/// of `input`, no position of `input` is taken twice, and two strings that
/// come out in the other order than they went in are strictly ordered, the
/// newer first; so strings that compare equal keep the order of `input`.
pub open spec fn stable_arrangement(input: Seq<String>, output: Seq<String>, p: Seq<int>) -> bool {
    &&& p.len() == output.len() == input.len()
    &&& forall|k: int| 0 <= k < p.len() ==> 0 <= #[trigger] p[k] < input.len() && output[k] == input[p[k]]
    &&& forall|k: int, l: int| 0 <= k < l < p.len() ==> #[trigger] p[k] != #[trigger] p[l]
    &&& forall|k: int, l: int|
        0 <= k < l < p.len() && #[trigger] p[k] > #[trigger] p[l] ==> desc_order(output[k]@, output[l]@) < 0
}

/// `output` lists the strings of `input` from the newest version to the
/// oldest: the same strings, none before the one that precedes it, none
/// before any that precedes it where all are semantic versions, and those
/// that compare equal in the order of `input`.
pub open spec fn newest_first(input: Seq<String>, output: Seq<String>) -> bool {
    &&& output.to_multiset() == input.to_multiset()
    &&& sorted_desc(texts(output))
    &&& all_semver(texts(input)) ==> sorted_desc_all(texts(output))
    &&& exists|p: Seq<int>| stable_arrangement(input, output, p)
}

/// A list that comes newest first, of texts that are all semantic versions,
/// holds only semantic versions, and each of them is no older than any that
/// follows it, by the order of `semver::Version`.
pub proof fn lemma_newest_first_orders_by_semver(input: Seq<String>, output: Seq<String>)
    requires
        newest_first(input, output),
        all_semver(texts(input)),
    ensures
        forall|k: int| 0 <= k < output.len() ==> (#[trigger] version_key(output[k]@)) is Some,
        forall|i: int, j: int|
            0 <= i < j < output.len() ==> semver_order(
                version_key(#[trigger] output[i]@).unwrap(),
                version_key(#[trigger] output[j]@).unwrap(),
            ) >= 0,
{
    let p = choose|p: Seq<int>| stable_arrangement(input, output, p);
    let t = texts(output);
    assert forall|k: int| 0 <= k < output.len() implies (#[trigger] version_key(output[k]@)) is Some by {
        assert(0 <= p[k] < input.len() && output[k] == input[p[k]]);
        assert(texts(input)[p[k]] == input[p[k]]@);
    }
    assert forall|i: int, j: int| 0 <= i < j < output.len() implies semver_order(
        version_key(#[trigger] output[i]@).unwrap(),
        version_key(#[trigger] output[j]@).unwrap(),
    ) >= 0 by {
        assert(t[i] == output[i]@ && t[j] == output[j]@);
        assert(desc_order(t[j], t[i]) >= 0);
        assert(version_key(output[i]@) is Some && version_key(output[j]@) is Some);
    }
}

/// The texts of a list of strings.
pub open spec fn texts(s: Seq<String>) -> Seq<Seq<char>> {
    s.map_values(|t: String| t@)
}

fn strip_v_prefix(s: &str) -> (r: &str)
    ensures
        r@ == strip_v(s@),
{
    let n = s.unicode_len();
    if n > 0 && s.get_char(0) == 'v' {
        s.substring_char(1, n)
    } else {
        s
    }
}

/// The view of an optional parsed version.
pub open spec fn key_view(k: Option<SemVer>) -> Option<SemVerView> {
    match k {
        Some(v) => Some(v.spec_view()),
        None => None,
    }
}

fn parse_key(s: &str) -> (r: Option<SemVer>)
    ensures
        key_view(r) == version_key(s@),
{
    parse_semver(strip_v_prefix(s))
}

/// How `a` compares to `b` in a list from newest to oldest, with the fact
/// that comparing them the other way round gives the opposite result.
fn compare_keys(a: &Option<SemVer>, b: &Option<SemVer>) -> (r: i8)
    ensures
        r == match (key_view(*a), key_view(*b)) {
            (Some(x), Some(y)) => semver_order(y, x),
            _ => 0,
        },
        -1 <= r <= 1,
        match (key_view(*a), key_view(*b)) {
            (Some(x), Some(y)) => semver_order(x, y) == -r,
            _ => true,
        },
        match (key_view(*a), key_view(*b)) {
            (Some(x), Some(y)) => r >= 0 ==> forall|t: Seq<char>|
                #[trigger] semver_parse(t) is Some && semver_order(semver_parse(t).unwrap(), y) >= 0
                    ==> semver_order(semver_parse(t).unwrap(), x) >= 0,
            _ => true,
        },
{
    match (a, b) {
        (Some(x), Some(y)) => compare_semver(y, x),
        _ => 0,
    }
}

/// The versions ordered from the newest to the oldest, as a stable
/// insertion sort with the order of `desc_order`: the result holds the same
/// texts, none of them comes before the one that precedes it, and, where
/// every text is a semantic version, none comes before any that precedes it;
/// texts that compare equal keep their order.
pub fn semver_sort_desc(versions: &Vec<String>) -> (r: Vec<String>)
    ensures
        r@.to_multiset() == versions@.to_multiset(),
        exists|p: Seq<int>| stable_arrangement(versions@, r@, p),
        sorted_desc(texts(r@)),
        all_semver(texts(versions@)) ==> sorted_desc_all(texts(r@)),
{
    broadcast use group_to_multiset_ensures;

    let ghost all = all_semver(texts(versions@));
    let ghost mut perm: Seq<int> = Seq::empty();
    let mut out: Vec<String> = Vec::new();
    let mut keys: Vec<Option<SemVer>> = Vec::new();
    let mut i: usize = 0;
    while i < versions.len()
        invariant
            i <= versions@.len(),
            out@.len() == keys@.len(),
            out@.to_multiset() == versions@.take(i as int).to_multiset(),
            forall|k: int| 0 <= k < out@.len() ==> #[trigger] key_view(keys@[k]) == version_key(out@[k]@),
            sorted_desc(texts(out@)),
            all == all_semver(texts(versions@)),
            out@.len() == i,
            perm.len() == i,
            forall|k: int| 0 <= k < i ==> 0 <= #[trigger] perm[k] < i && out@[k] == versions@[perm[k]],
            forall|k: int, l: int| 0 <= k < l < i ==> #[trigger] perm[k] != #[trigger] perm[l],
            forall|k: int, l: int|
                0 <= k < l < i && #[trigger] perm[k] > #[trigger] perm[l] ==> desc_order(out@[k]@, out@[l]@) < 0,
            all ==> all_semver(texts(out@)),
            all ==> sorted_desc_all(texts(out@)),
        decreases versions@.len() - i,
    {
        let name = versions[i].clone();
        let key = parse_key(name.as_str());
        proof {
            if all {
                assert(texts(versions@)[i as int] == versions@[i as int]@);
            }
        }
        let mut j: usize = out.len();
        loop
            invariant
                j <= out@.len(),
                out@.len() == keys@.len(),
                forall|k: int| 0 <= k < out@.len() ==> #[trigger] key_view(keys@[k]) == version_key(out@[k]@),
                key_view(key) == version_key(name@),
                forall|k: int| j <= k < out@.len() ==> desc_order(#[trigger] out@[k]@, name@) >= 0,
                forall|k: int| j <= k < out@.len() ==> desc_order(name@, #[trigger] out@[k]@) < 0,
                sorted_desc(texts(out@)),
                name == versions@[i as int],
                out@.to_multiset() == versions@.take(i as int).to_multiset(),
                all ==> version_key(name@) is Some,
                all ==> all_semver(texts(out@)),
                all ==> sorted_desc_all(texts(out@)),
            ensures
                j <= out@.len(),
                forall|k: int| j <= k < out@.len() ==> desc_order(#[trigger] out@[k]@, name@) >= 0,
                forall|k: int| j <= k < out@.len() ==> desc_order(name@, #[trigger] out@[k]@) < 0,
                j > 0 ==> desc_order(name@, out@[j - 1]@) >= 0,
                all ==> forall|k: int| 0 <= k < j ==> desc_order(name@, #[trigger] out@[k]@) >= 0,
            decreases j,
        {
            if j == 0 {
                break;
            }
            let c = compare_keys(&key, &keys[j - 1]);
            if c >= 0 {
                proof {
                    if all {
                        let t = texts(out@);
                        assert forall|k: int| 0 <= k < j implies desc_order(name@, #[trigger] out@[k]@)
                            >= 0 by {
                            if k < j - 1 {
                                assert(t[k] == out@[k]@ && t[j - 1] == out@[j - 1]@);
                                assert(desc_order(t[j - 1], t[k]) >= 0);
                                assert(version_key(t[k]) is Some);
                                let w = strip_v(out@[k]@);
                                assert(semver_parse(w) is Some);
                            }
                        }
                    }
                }
                break;
            }
            proof {
                assert(key_view(keys@[j - 1]) == version_key(out@[j - 1]@));
                assert(desc_order(name@, out@[j - 1]@) < 0);
            }
            j = j - 1;
        }
        let ghost before = out@;
        let ghost pb = perm;
        out.insert(j, name);
        keys.insert(j, key);
        proof {
            let t = texts(out@);
            let tb = texts(before);
            assert(versions@.take(i + 1) =~= versions@.take(i as int).push(versions@[i as int]));
            assert(out@ =~= before.insert(j as int, name));
            to_multiset_insert(before, j as int, name);
            to_multiset_build(versions@.take(i as int), versions@[i as int]);
            assert(sorted_desc(tb));
            assert forall|a: int, b: int|
                0 <= a && b == a + 1 && b < t.len() implies desc_order(#[trigger] t[b], #[trigger] t[a]) >= 0 by {
                let k = a;
                if k + 1 < j {
                    assert(t[k + 1] == tb[k + 1] && t[k] == tb[k]);
                    assert(desc_order(tb[k + 1], tb[k]) >= 0);
                } else if k + 1 == j {
                    assert(t[k + 1] == name@);
                    assert(t[k] == before[k]@);
                } else if k == j {
                    assert(t[k] == name@);
                    assert(t[k + 1] == before[k]@);
                } else {
                    assert(t[k + 1] == tb[k] && t[k] == tb[k - 1]);
                    assert(desc_order(tb[k], tb[k - 1]) >= 0);
                }
            }
            if all {
                assert forall|k: int| 0 <= k < t.len() implies (#[trigger] version_key(t[k])) is Some by {
                    if k < j {
                        assert(t[k] == tb[k]);
                    } else if k > j {
                        assert(t[k] == tb[k - 1]);
                    }
                }
                assert forall|a: int, b: int| 0 <= a < b < t.len() implies desc_order(
                    #[trigger] t[b],
                    #[trigger] t[a],
                ) >= 0 by {
                    if b < j {
                        assert(t[b] == tb[b] && t[a] == tb[a]);
                    } else if b == j {
                        assert(t[a] == before[a]@);
                    } else if a == j {
                        assert(t[b] == before[b - 1]@);
                    } else if a < j {
                        assert(t[b] == tb[b - 1] && t[a] == tb[a]);
                    } else {
                        assert(t[b] == tb[b - 1] && t[a] == tb[a - 1]);
                    }
                }
            }
            assert forall|k: int| 0 <= k < out@.len() implies #[trigger] key_view(keys@[k]) == version_key(out@[k]@) by {
                if k < j {
                } else if k == j {
                } else {
                    assert(out@[k] == before[k - 1]);
                }
            }
        }
        proof {
            perm = pb.insert(j as int, i as int);
            let n = i + 1;
            assert forall|k: int| 0 <= k < n implies 0 <= #[trigger] perm[k] < n && out@[k]
                == versions@[perm[k]] by {
                if k < j {
                    assert(perm[k] == pb[k] && out@[k] == before[k]);
                } else if k > j {
                    assert(perm[k] == pb[k - 1] && out@[k] == before[k - 1]);
                }
            }
            assert forall|k: int, l: int| 0 <= k < l < n implies #[trigger] perm[k] != #[trigger] perm[l] by {
                if k < j && l < j {
                    assert(pb[k] != pb[l]);
                } else if k < j && l > j {
                    assert(perm[l] == pb[l - 1] && pb[k] != pb[l - 1]);
                } else if k > j {
                    assert(perm[k] == pb[k - 1] && perm[l] == pb[l - 1] && pb[k - 1] != pb[l - 1]);
                } else if k == j {
                    assert(perm[l] == pb[l - 1] && pb[l - 1] < i);
                } else {
                    assert(perm[k] == pb[k] && pb[k] < i);
                }
            }
            assert forall|k: int, l: int|
                0 <= k < l < n && #[trigger] perm[k] > #[trigger] perm[l] implies desc_order(
                out@[k]@,
                out@[l]@,
            ) < 0 by {
                if k < j && l < j {
                    assert(out@[k] == before[k] && out@[l] == before[l]);
                    assert(pb[k] > pb[l]);
                } else if k < j && l > j {
                    assert(out@[k] == before[k] && out@[l] == before[l - 1]);
                    assert(perm[l] == pb[l - 1] && pb[k] > pb[l - 1]);
                } else if k > j {
                    assert(out@[k] == before[k - 1] && out@[l] == before[l - 1]);
                    assert(perm[k] == pb[k - 1] && perm[l] == pb[l - 1] && pb[k - 1] > pb[l - 1]);
                } else if k == j {
                    assert(out@[k] == name && out@[l] == before[l - 1]);
                } else {
                    assert(perm[k] == pb[k] && pb[k] < i);
                }
            }
        }
        i = i + 1;
    }
    assert(versions@.take(i as int) =~= versions@);
    assert(stable_arrangement(versions@, out@, perm));
    out
}

} // verus!
