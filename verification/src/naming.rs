//! Artifact file naming and the matching rule the retention sweep uses.
//!
//! An artifact name is `{kind}_{alias}_{timestamp}{ext}`, optionally followed
//! by `.gz` once compressed. The sweep must recognise exactly the names a job
//! of the given alias produces. Anchoring the match on the kind prefix and on
//! the shape of the timestamp keeps one alias from capturing another that it
//! is a prefix of (such as `db` and `db2`).
use vstd::prelude::*;

verus! {

/// A decimal digit.
pub open spec fn is_digit(c: char) -> bool {
    48 <= c as u32 && c as u32 <= 57
}

/// The shape of a run timestamp: `YYYY-MM-DD_HH:MM:SS.` followed by one or
/// more fractional-second digits.
pub open spec fn is_timestamp(ts: Seq<char>) -> bool {
    &&& ts.len() >= 21
    &&& is_digit(ts[0]) && is_digit(ts[1]) && is_digit(ts[2]) && is_digit(ts[3])
    &&& ts[4] == '-'
    &&& is_digit(ts[5]) && is_digit(ts[6])
    &&& ts[7] == '-'
    &&& is_digit(ts[8]) && is_digit(ts[9])
    &&& ts[10] == '_'
    &&& is_digit(ts[11]) && is_digit(ts[12])
    &&& ts[13] == ':'
    &&& is_digit(ts[14]) && is_digit(ts[15])
    &&& ts[16] == ':'
    &&& is_digit(ts[17]) && is_digit(ts[18])
    &&& ts[19] == '.'
    &&& forall|i: int| 20 <= i < ts.len() ==> is_digit(#[trigger] ts[i])
}

/// The file name a job writes: kind, alias and timestamp joined by `_`,
/// then the format extension.
pub open spec fn artifact_base_name(
    kind: Seq<char>,
    alias: Seq<char>,
    ts: Seq<char>,
    ext: Seq<char>,
) -> Seq<char> {
    kind + seq!['_'] + alias + seq!['_'] + ts + ext
}

/// The full path of a fresh artifact: the backup directory, `/`, the base name.
pub open spec fn artifact_path(
    dir: Seq<char>,
    kind: Seq<char>,
    alias: Seq<char>,
    ts: Seq<char>,
    ext: Seq<char>,
) -> Seq<char> {
    dir + seq!['/'] + artifact_base_name(kind, alias, ts, ext)
}

/// The suffix compression appends.
pub open spec fn gz_suffix() -> Seq<char> {
    seq!['.', 'g', 'z']
}

/// Does `tail` read as a timestamp followed by `ext`, or by `ext` plus `.gz`?
pub open spec fn stamped_tail(tail: Seq<char>, ext: Seq<char>) -> bool {
    ||| {
        &&& tail.len() > ext.len()
        &&& tail.subrange(tail.len() - ext.len(), tail.len() as int) == ext
        &&& is_timestamp(tail.take(tail.len() - ext.len()))
    }
    ||| {
        &&& tail.len() > ext.len() + 3
        &&& tail.subrange(tail.len() - ext.len() - 3, tail.len() as int) == ext + gz_suffix()
        &&& is_timestamp(tail.take(tail.len() - ext.len() - 3))
    }
}

/// Does `name` read as an artifact of this kind for this alias?
pub open spec fn matches_kind(
    name: Seq<char>,
    kind: Seq<char>,
    ext: Seq<char>,
    alias: Seq<char>,
) -> bool {
    let head = kind + seq!['_'] + alias + seq!['_'];
    &&& name.len() > head.len()
    &&& name.take(head.len() as int) == head
    &&& stamped_tail(name.skip(head.len() as int), ext)
}

/// Does `name` read as an artifact of any known kind for this alias?
pub open spec fn name_matches_alias(name: Seq<char>, alias: Seq<char>) -> bool {
    ||| matches_kind(name, "postgres"@, ".sql"@, alias)
    ||| matches_kind(name, "redis"@, ".rdb"@, alias)
}

/// Is `s[from + j] == pat[j]` for every position of `pat`?
fn str_range_eq(s: &str, from: usize, pat: &str) -> (r: bool)
    requires
        from + pat@.len() <= s@.len(),
        s@.len() <= usize::MAX,
    ensures
        r == (s@.subrange(from as int, from + pat@.len()) == pat@),
{
    let plen = pat.unicode_len();
    let mut i: usize = 0;
    while i < plen
        invariant
            0 <= i <= plen,
            plen == pat@.len(),
            from + plen <= s@.len(),
            s@.len() <= usize::MAX,
            forall|j: int| 0 <= j < i ==> s@[from + j] == pat@[j],
        decreases plen - i,
    {
        if s.get_char(from + i) != pat.get_char(i) {
            proof {
                assert(s@.subrange(from as int, from + pat@.len())[i as int] == s@[from + i]);
            }
            return false;
        }
        i = i + 1;
    }
    proof {
        assert(s@.subrange(from as int, from + pat@.len()) =~= pat@);
    }
    true
}

/// Are two strings the same sequence of characters?
pub fn str_eq(a: &str, b: &str) -> (r: bool)
    ensures
        r == (a@ == b@),
{
    let al = a.unicode_len();
    let bl = b.unicode_len();
    if al != bl {
        return false;
    }
    let r = str_range_eq(a, 0, b);
    proof {
        if r {
            assert(a@.subrange(0, b@.len() as int) =~= a@);
        } else {
            if a@ == b@ {
                assert(a@.subrange(0, b@.len() as int) =~= b@);
            }
        }
    }
    r
}

/// Is the character a decimal digit?
fn digit_at(s: &str, i: usize) -> (r: bool)
    requires
        i < s@.len(),
    ensures
        r == is_digit(s@[i as int]),
{
    let c = s.get_char(i);
    48 <= c as u32 && c as u32 <= 57
}

/// Does `s[from..to]` have the timestamp shape?
fn is_timestamp_range(s: &str, from: usize, to: usize) -> (r: bool)
    requires
        from <= to <= s@.len(),
        s@.len() <= usize::MAX,
    ensures
        r == is_timestamp(s@.subrange(from as int, to as int)),
{
    let ghost ts = s@.subrange(from as int, to as int);
    proof {
        assert(forall|k: int|
            0 <= k < to - from
                ==> #[trigger] s@.subrange(from as int, to as int)[k] == s@[from + k]);
    }
    if to - from < 21 {
        return false;
    }
    let fixed = digit_at(s, from) && digit_at(s, from + 1) && digit_at(s, from + 2)
        && digit_at(s, from + 3) && s.get_char(from + 4) == '-' && digit_at(s, from + 5)
        && digit_at(s, from + 6) && s.get_char(from + 7) == '-' && digit_at(s, from + 8)
        && digit_at(s, from + 9) && s.get_char(from + 10) == '_' && digit_at(s, from + 11)
        && digit_at(s, from + 12) && s.get_char(from + 13) == ':' && digit_at(s, from + 14)
        && digit_at(s, from + 15) && s.get_char(from + 16) == ':' && digit_at(s, from + 17)
        && digit_at(s, from + 18) && s.get_char(from + 19) == '.';
    if !fixed {
        return false;
    }
    let mut i: usize = from + 20;
    while i < to
        invariant
            from + 20 <= i <= to,
            to <= s@.len() <= usize::MAX,
            forall|j: int| from + 20 <= j < i ==> is_digit(#[trigger] s@[j]),
        decreases to - i,
    {
        if !digit_at(s, i) {
            proof {
                assert(s@.subrange(from as int, to as int)[i - from] == s@[i as int]);
            }
            return false;
        }
        i = i + 1;
    }
    proof {
        assert(forall|j: int|
            20 <= j < to - from
                ==> is_digit(#[trigger] s@.subrange(from as int, to as int)[j]));
    }
    true
}

/// Does `name` read as an artifact of the kind with this prefix and
/// extension, made for this alias?
fn matches_kind_exec(name: &str, kind: &str, ext: &str, alias: &str) -> (r: bool)
    requires
        kind@.len() >= 1,
        1 <= ext@.len() <= 8,
    ensures
        r == matches_kind(name@, kind@, ext@, alias@),
{
    proof {
        reveal_strlit("_");
        reveal_strlit(".gz");
        assert(".gz"@ =~= gz_suffix());
    }
    let nlen = name.unicode_len();
    let klen = kind.unicode_len();
    let alen = alias.unicode_len();
    let elen = ext.unicode_len();
    let ghost head = kind@ + seq!['_'] + alias@ + seq!['_'];
    if nlen < klen || nlen - klen < 3 || alen > nlen - klen - 3 {
        // head.len() = klen + alen + 2 >= nlen: too short to match
        return false;
    }
    let head_len = klen + 1 + alen + 1;
    assert(head_len == head.len());
    if !(str_range_eq(name, 0, kind) && name.get_char(klen) == '_'
        && str_range_eq(name, klen + 1, alias) && name.get_char(klen + 1 + alen) == '_') {
        proof {
            if name@.take(head_len as int) == head {
                assert(name@.subrange(0, klen as int) =~= kind@) by {
                    assert(forall|j: int|
                        0 <= j < klen ==> name@.take(head_len as int)[j] == name@[j]);
                }
                assert(name@.subrange(klen + 1, klen + 1 + alen as int) =~= alias@) by {
                    assert(forall|j: int|
                        0 <= j < alen ==> head[klen + 1 + j] == alias@[j]);
                    assert(forall|j: int|
                        0 <= j < alen ==> #[trigger] name@.take(head_len as int)[klen + 1 + j]
                            == name@[klen + 1 + j]);
                }
                assert(name@[klen as int] == head[klen as int]);
                assert(name@[klen + 1 + alen as int] == head[klen + 1 + alen as int]);
            }
        }
        return false;
    }
    proof {
        assert(name@.take(head_len as int) =~= head) by {
            assert(forall|j: int| 0 <= j < klen ==> name@[j] == kind@[j]);
            assert(forall|j: int|
                0 <= j < alen ==> name@[klen + 1 + j] == alias@[j]);
        }
    }
    let ghost tail = name@.skip(head_len as int);
    let tail_len = nlen - head_len;
    proof {
        assert(forall|m: int|
            0 <= m < nlen - head_len
                ==> #[trigger] name@.skip(head_len as int)[m] == name@[head_len + m]);
    }
    // plain tail: timestamp then extension
    let plain = tail_len > elen && str_range_eq(name, nlen - elen, ext)
        && is_timestamp_range(name, head_len, nlen - elen);
    proof {
        if tail_len > elen {
            assert(name@.subrange(nlen - elen, nlen as int)
                =~= tail.subrange(tail.len() - ext@.len(), tail.len() as int));
            assert(name@.subrange(head_len as int, nlen - elen)
                =~= tail.take(tail.len() - ext@.len()));
        }
    }
    if plain {
        return true;
    }
    // compressed tail: timestamp, extension, `.gz`
    if tail_len > elen + 3 {
        let zipped = str_range_eq(name, nlen - elen - 3, ext)
            && str_range_eq(name, nlen - 3, ".gz")
            && is_timestamp_range(name, head_len, nlen - elen - 3);
        proof {
            assert(name@.subrange(head_len as int, nlen - elen - 3)
                =~= tail.take(tail.len() - ext@.len() - 3));
            assert(forall|m: int|
                0 <= m < elen + 3
                    ==> #[trigger] tail.subrange(
                        tail.len() - ext@.len() - 3,
                        tail.len() as int,
                    )[m] == name@[nlen - elen - 3 + m]);
            if zipped {
                assert(forall|j: int|
                    0 <= j < elen
                        ==> #[trigger] name@.subrange(
                            nlen - elen - 3,
                            nlen - elen - 3 + ext@.len(),
                        )[j] == name@[nlen - elen - 3 + j]);
                assert(forall|j: int|
                    0 <= j < 3
                        ==> #[trigger] name@.subrange(nlen - 3, nlen - 3 + 3)[j]
                            == name@[nlen - 3 + j]);
                assert(tail.subrange(tail.len() - ext@.len() - 3, tail.len() as int)
                    =~= ext@ + gz_suffix());
            } else {
                if tail.subrange(tail.len() - ext@.len() - 3, tail.len() as int)
                    == ext@ + gz_suffix() {
                    assert forall|j: int| 0 <= j < elen implies name@.subrange(
                        nlen - elen - 3,
                        nlen - elen - 3 + ext@.len(),
                    )[j] == ext@[j] by {
                        assert(tail.subrange(tail.len() - ext@.len() - 3, tail.len() as int)[j]
                            == (ext@ + gz_suffix())[j]);
                        assert(name@.subrange(nlen - elen - 3, nlen - elen - 3 + ext@.len())[j]
                            == name@[nlen - elen - 3 + j]);
                    }
                    assert(name@.subrange(nlen - elen - 3, nlen - elen - 3 + ext@.len())
                        =~= ext@);
                    assert forall|j: int| 0 <= j < 3 implies name@.subrange(
                        nlen - 3,
                        nlen - 3 + 3,
                    )[j] == ".gz"@[j] by {
                        assert(tail.subrange(
                            tail.len() - ext@.len() - 3,
                            tail.len() as int,
                        )[elen + j] == (ext@ + gz_suffix())[elen + j]);
                        assert(name@.subrange(nlen - 3, nlen - 3 + 3)[j]
                            == name@[nlen - 3 + j]);
                    }
                    assert(name@.subrange(nlen - 3, nlen - 3 + 3) =~= ".gz"@);
                }
            }
        }
        zipped
    } else {
        false
    }
}

/// Every character of the head `{kind}_{who}_`, by position.
proof fn lemma_head_chars(kind: Seq<char>, who: Seq<char>)
    ensures
        (kind + seq!['_'] + who + seq!['_']).len() == kind.len() + who.len() + 2,
        forall|i: int|
            0 <= i < kind.len() ==> #[trigger] (kind + seq!['_'] + who + seq!['_'])[i]
                == kind[i],
        (kind + seq!['_'] + who + seq!['_'])[kind.len() as int] == '_',
        forall|i: int|
            kind.len() + 1 <= i < kind.len() + 1 + who.len()
                ==> #[trigger] (kind + seq!['_'] + who + seq!['_'])[i]
                    == who[i - kind.len() - 1],
        (kind + seq!['_'] + who + seq!['_'])[kind.len() + 1 + who.len() as int] == '_',
{
}

/// Every character of a base name `{kind}_{alias}_{ts}{tailext}`, by position.
proof fn lemma_base_chars(kind: Seq<char>, alias: Seq<char>, ts: Seq<char>, tailext: Seq<char>)
    ensures
        artifact_base_name(kind, alias, ts, tailext).len()
            == kind.len() + alias.len() + ts.len() + tailext.len() + 2,
        forall|i: int|
            0 <= i < kind.len()
                ==> #[trigger] artifact_base_name(kind, alias, ts, tailext)[i] == kind[i],
        artifact_base_name(kind, alias, ts, tailext)[kind.len() as int] == '_',
        forall|i: int|
            kind.len() + 1 <= i < kind.len() + 1 + alias.len()
                ==> #[trigger] artifact_base_name(kind, alias, ts, tailext)[i]
                    == alias[i - kind.len() - 1],
        artifact_base_name(kind, alias, ts, tailext)[kind.len() + 1 + alias.len() as int] == '_',
        forall|i: int|
            kind.len() + 2 + alias.len() <= i < kind.len() + 2 + alias.len() + ts.len()
                ==> #[trigger] artifact_base_name(kind, alias, ts, tailext)[i]
                    == ts[i - kind.len() - 2 - alias.len()],
        forall|i: int|
            kind.len() + 2 + alias.len() + ts.len() <= i
                < kind.len() + 2 + alias.len() + ts.len() + tailext.len()
                ==> #[trigger] artifact_base_name(kind, alias, ts, tailext)[i]
                    == tailext[i - kind.len() - 2 - alias.len() - ts.len()],
{
    lemma_head_chars(kind, alias);
}

/// A timestamp holds `_` only at position ten.
proof fn lemma_stamp_underscore(x: Seq<char>, i: int)
    requires
        is_timestamp(x),
        0 <= i < x.len(),
        x[i] == '_',
    ensures
        i == 10,
{
    if i >= 20 {
        assert(is_digit(x[i]));
    }
}

/// An artifact name built for one alias never reads as an artifact of a
/// different alias, whichever kind the matcher tries: the timestamp shape
/// anchors the alias segment, so even an alias that extends another (such as
/// `db` and `db2`) keeps its artifacts to itself.
pub proof fn lemma_alias_isolation(
    kind: Seq<char>,
    ext: Seq<char>,
    alias: Seq<char>,
    other: Seq<char>,
    ts: Seq<char>,
    zipped: bool,
)
    requires
        alias != other,
        is_timestamp(ts),
        (kind == "postgres"@ && ext == ".sql"@) || (kind == "redis"@ && ext == ".rdb"@),
    ensures
        !name_matches_alias(
            artifact_base_name(kind, alias, ts, if zipped { ext + gz_suffix() } else { ext }),
            other,
        ),
{
    let tailext = if zipped { ext + gz_suffix() } else { ext };
    proof_strlits();
    assert(forall|m: int| 0 <= m < ext.len() ==> #[trigger] ext[m] != '_');
    assert forall|m: int| 0 <= m < tailext.len() implies #[trigger] tailext[m] != '_' by {
        if zipped {
            assert(tailext[m] == (ext + gz_suffix())[m]);
        }
    }
    lemma_no_kind_match(kind, ext, alias, other, ts, tailext, "postgres"@, ".sql"@);
    lemma_no_kind_match(kind, ext, alias, other, ts, tailext, "redis"@, ".rdb"@);
}

/// Reveal the literals the naming scheme is built from.
proof fn proof_strlits()
    ensures
        "postgres"@.len() == 8,
        "redis"@.len() == 5,
        ".sql"@.len() == 4,
        ".rdb"@.len() == 4,
        "postgres"@[0] == 'p',
        "redis"@[0] == 'r',
        forall|m: int| 0 <= m < 4 ==> #[trigger] ".sql"@[m] != '_',
        forall|m: int| 0 <= m < 4 ==> #[trigger] ".rdb"@[m] != '_',
        forall|m: int| 0 <= m < 3 ==> #[trigger] gz_suffix()[m] != '_',
{
    reveal_strlit("postgres");
    reveal_strlit("redis");
    reveal_strlit(".sql");
    reveal_strlit(".rdb");
}

/// One attempted kind of match against a foreign alias fails.
proof fn lemma_no_kind_match(
    kind: Seq<char>,
    ext: Seq<char>,
    alias: Seq<char>,
    other: Seq<char>,
    ts: Seq<char>,
    tailext: Seq<char>,
    kind2: Seq<char>,
    ext2: Seq<char>,
)
    requires
        alias != other,
        is_timestamp(ts),
        (kind == "postgres"@ && ext == ".sql"@) || (kind == "redis"@ && ext == ".rdb"@),
        (kind2 == "postgres"@ && ext2 == ".sql"@) || (kind2 == "redis"@ && ext2 == ".rdb"@),
        tailext == ext || tailext == ext + gz_suffix(),
        forall|m: int| 0 <= m < tailext.len() ==> #[trigger] tailext[m] != '_',
    ensures
        !matches_kind(artifact_base_name(kind, alias, ts, tailext), kind2, ext2, other),
{
    proof_strlits();
    let n = artifact_base_name(kind, alias, ts, tailext);
    let kl = kind.len() as int;
    let la = alias.len() as int;
    let lo = other.len() as int;
    let t = ts.len() as int;
    let x = tailext.len() as int;
    lemma_base_chars(kind, alias, ts, tailext);
    if matches_kind(n, kind2, ext2, other) {
        let head2 = kind2 + seq!['_'] + other + seq!['_'];
        lemma_head_chars(kind2, other);
        assert forall|i: int| 0 <= i < head2.len() implies n[i] == head2[i] by {
            assert(n.take(head2.len() as int)[i] == n[i]);
        }
        if kind2 != kind {
            assert(n[0] == kind[0]);
            assert(n[0] == head2[0]);
            assert(kind[0] != kind2[0]);
        } else {
            // same kind, so the alias segments start at the same position
            let h2 = kl + 2 + lo;
            let tail2 = n.skip(h2);
            let e2tot: int = if tail2.len() > ext2.len()
                && tail2.subrange(tail2.len() - ext2.len(), tail2.len() as int) == ext2
                && is_timestamp(tail2.take(tail2.len() - ext2.len())) {
                ext2.len() as int
            } else {
                ext2.len() as int + 3
            };
            let ts2 = tail2.take(tail2.len() - e2tot);
            assert(is_timestamp(ts2));
            assert(ts2.len() == n.len() - h2 - e2tot);
            assert forall|i: int| 0 <= i < ts2.len() implies #[trigger] ts2[i] == n[h2 + i] by {
                assert(tail2.take(tail2.len() - e2tot)[i] == tail2[i]);
                assert(n.skip(h2)[i] == n[h2 + i]);
            }
            if lo == la {
                assert forall|j: int| 0 <= j < la implies alias[j] == other[j] by {
                    assert(n[kl + 1 + j] == alias[j]);
                    assert(n[kl + 1 + j] == head2[kl + 1 + j]);
                }
                assert(alias =~= other);
            } else if lo < la {
                // the foreign alias is shorter: its separator would fall
                // inside this alias, and the joiner lands inside the
                // would-be timestamp, which the shape rules out
                let s_len = la - lo - 1;
                assert(ts2[s_len] == n[kl + 1 + la]);
                assert(ts2[s_len] == '_');
                lemma_stamp_underscore(ts2, s_len);
                assert(ts2[19] == n[kl + 2 + la + 8]);
                assert(n[kl + 2 + la + 8] == ts[8]);
                assert(is_digit(ts[8]) && ts2[19] == '.');
            } else {
                // the foreign alias is longer: its separator falls in this
                // name's timestamp or extension
                let q = kl + 1 + lo;
                assert(n[q] == head2[q]);
                assert(n[q] == '_');
                let j = q - (kl + 2 + la);
                if j < t {
                    assert(n[q] == ts[j]);
                    lemma_stamp_underscore(ts, j);
                    assert(ts2[4] == n[h2 + 4]);
                    assert(n[h2 + 4] == ts[15]);
                    assert(is_digit(ts[15]) && ts2[4] == '-');
                } else {
                    assert(n[q] == tailext[j - t]);
                }
            }
        }
    }
}

/// A base name built for an alias, compressed or not, reads as an artifact
/// of that alias: the sweep recognises what the jobs produce.
pub proof fn lemma_own_name_matches(
    kind: Seq<char>,
    ext: Seq<char>,
    alias: Seq<char>,
    ts: Seq<char>,
    zipped: bool,
)
    requires
        is_timestamp(ts),
        (kind == "postgres"@ && ext == ".sql"@) || (kind == "redis"@ && ext == ".rdb"@),
    ensures
        name_matches_alias(
            artifact_base_name(kind, alias, ts, if zipped { ext + gz_suffix() } else { ext }),
            alias,
        ),
{
    proof_strlits();
    let tailext = if zipped { ext + gz_suffix() } else { ext };
    let n = artifact_base_name(kind, alias, ts, tailext);
    let kl = kind.len() as int;
    let la = alias.len() as int;
    let t = ts.len() as int;
    let x = tailext.len() as int;
    lemma_base_chars(kind, alias, ts, tailext);
    let head = kind + seq!['_'] + alias + seq!['_'];
    lemma_head_chars(kind, alias);
    assert(n.take(head.len() as int) =~= head) by {
        assert(forall|i: int|
            0 <= i < head.len() ==> #[trigger] n.take(head.len() as int)[i] == n[i]);
    }
    let tail = n.skip(head.len() as int);
    assert forall|i: int| 0 <= i < tail.len() implies #[trigger] tail[i] == n[kl + 2 + la + i] by {
        assert(n.skip(head.len() as int)[i] == n[head.len() + i]);
    }
    assert(tail.len() == t + x);
    let e2tot: int = if zipped { ext.len() as int + 3 } else { ext.len() as int };
    assert(tail.take(tail.len() - e2tot) =~= ts);
    assert(is_timestamp(tail.take(tail.len() - e2tot)));
    if zipped {
        assert(tail.subrange(tail.len() - ext.len() - 3, tail.len() as int)
            =~= ext + gz_suffix()) by {
            assert(forall|i: int|
                0 <= i < ext.len() + 3
                    ==> #[trigger] tail.subrange(
                        tail.len() - ext.len() - 3,
                        tail.len() as int,
                    )[i] == tail[t + i]);
        }
        assert(matches_kind(n, kind, ext, alias));
    } else {
        assert(tail.subrange(tail.len() - ext.len(), tail.len() as int) =~= ext) by {
            assert(forall|i: int|
                0 <= i < ext.len()
                    ==> #[trigger] tail.subrange(tail.len() - ext.len(), tail.len() as int)[i]
                        == tail[t + i]);
        }
        assert(matches_kind(n, kind, ext, alias));
    }
}

/// Does `name` read as an artifact of any known kind for this alias?
pub fn matches_alias(name: &str, alias: &str) -> (r: bool)
    ensures
        r == name_matches_alias(name@, alias@),
{
    proof {
        reveal_strlit("postgres");
        reveal_strlit("redis");
        reveal_strlit(".sql");
        reveal_strlit(".rdb");
    }
    matches_kind_exec(name, "postgres", ".sql", alias)
        || matches_kind_exec(name, "redis", ".rdb", alias)
}

/// The full path of a fresh artifact, as one string.
pub fn artifact_path_for(dir: &str, kind: &str, alias: &str, ts: &str, ext: &str) -> (r: String)
    ensures
        r@ == artifact_path(dir@, kind@, alias@, ts@, ext@),
{
    let mut s = dir.to_owned();
    s.append("/");
    s.append(kind);
    s.append("_");
    s.append(alias);
    s.append("_");
    s.append(ts);
    s.append(ext);
    proof {
        reveal_strlit("/");
        reveal_strlit("_");
        assert("/"@ =~= seq!['/']);
        assert("_"@ =~= seq!['_']);
        assert(s@ =~= artifact_path(dir@, kind@, alias@, ts@, ext@));
    }
    s
}

} // verus!
