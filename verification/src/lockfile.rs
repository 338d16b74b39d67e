//! Lockfile discovery: parsing the connection descriptor that the local
//! service writes as a colon-delimited line. The third field is the port,
//! the fourth the per-session credential.
use vstd::prelude::*;
use vstd::string::StrSliceExecFns;

use crate::errors::{AppError, AppResult};

verus! {

/// Connection descriptor read from the lockfile: the local service's port
/// and the per-session credential. Immutable once read; a reconnect reads
/// the lockfile again rather than reusing an old descriptor.
#[derive(Clone, Debug)]
pub struct ConnectionDescriptor {
    pub port: String,
    pub credential: String,
}

/// The fields of `s` split on ':'. There is always at least one field;
/// separators at the ends or next to each other yield empty fields.
pub open spec fn split_colon(s: Seq<char>) -> Seq<Seq<char>>
    decreases s.len(),
{
    if s.len() == 0 {
        seq![Seq::<char>::empty()]
    } else if s[0] == ':' {
        seq![Seq::<char>::empty()] + split_colon(s.drop_first())
    } else {
        let rest = split_colon(s.drop_first());
        seq![seq![s[0]] + rest[0]] + rest.drop_first()
    }
}

/// A split always yields at least one field, even of an empty input.
pub proof fn lemma_split_colon_nonempty(s: Seq<char>)
    ensures
        split_colon(s).len() >= 1,
    decreases s.len(),
{
    if s.len() == 0 {
    } else {
        lemma_split_colon_nonempty(s.drop_first());
    }
}

/// Splitting a sequence whose first separator stands at `j` yields the
/// prefix before `j` as the first field, then the fields of the rest.
proof fn lemma_split_at_first_colon(t: Seq<char>, j: int)
    requires
        0 <= j < t.len(),
        t[j] == ':',
        forall|k: int| 0 <= k < j ==> t[k] != ':',
    ensures
        split_colon(t) == seq![t.take(j)] + split_colon(t.skip(j + 1)),
    decreases j,
{
    if j == 0 {
        assert(t.take(0) =~= Seq::<char>::empty());
        assert(t.drop_first() =~= t.skip(1));
        assert(split_colon(t) =~~= seq![t.take(0)] + split_colon(t.skip(1)));
    } else {
        let u = t.drop_first();
        lemma_split_at_first_colon(u, j - 1);
        lemma_split_colon_nonempty(u.skip(j));
        assert(seq![t[0]] + u.take(j - 1) =~= t.take(j));
        assert(u.skip(j) =~= t.skip(j + 1));
        assert(split_colon(t) =~~= seq![t.take(j)] + split_colon(t.skip(j + 1)));
    }
}

/// Splitting a sequence without separators yields that one field.
proof fn lemma_split_no_colon(t: Seq<char>)
    requires
        forall|k: int| 0 <= k < t.len() ==> t[k] != ':',
    ensures
        split_colon(t) == seq![t],
    decreases t.len(),
{
    if t.len() == 0 {
        assert(split_colon(t) =~~= seq![t]);
    } else {
        lemma_split_no_colon(t.drop_first());
        assert(seq![t[0]] + t.drop_first() =~= t);
        assert(split_colon(t) =~~= seq![t]);
    }
}

/// Splits a string into its colon-separated fields.
pub fn split_fields(s: &str) -> (fields: Vec<String>)
    ensures
        fields.deep_view() == split_colon(s@),
{
    let n = s.unicode_len();
    let mut fields: Vec<String> = Vec::new();
    let mut start: usize = 0;
    let mut i: usize = 0;
    proof {
        assert(s@.skip(0) =~= s@);
        assert(fields.deep_view() =~= Seq::<Seq<char>>::empty());
        assert(fields.deep_view() + split_colon(s@.skip(0)) =~~= split_colon(s@));
    }
    while i < n
        invariant
            n == s@.len(),
            start <= i <= n,
            forall|k: int| start <= k < i ==> s@[k] != ':',
            split_colon(s@) == fields.deep_view() + split_colon(s@.skip(start as int)),
        decreases n - i,
    {
        let c = s.get_char(i);
        if c == ':' {
            let field = s.substring_char(start, i);
            proof {
                let t = s@.skip(start as int);
                let j = i - start as int;
                assert(t[j] == s@[i as int]);
                assert(forall|k: int| 0 <= k < j ==> t[k] == s@[k + start]);
                lemma_split_at_first_colon(t, j);
                assert(t.take(j) =~= s@.subrange(start as int, i as int));
                assert(t.skip(j + 1) =~= s@.skip(i + 1));
            }
            fields.push(field.to_owned());
            proof {
                assert(fields.deep_view() =~= fields.deep_view().drop_last() + seq![
                    s@.subrange(start as int, i as int),
                ]);
            }
            start = i + 1;
        }
        i = i + 1;
    }
    let last = s.substring_char(start, n);
    proof {
        let t = s@.skip(start as int);
        assert(forall|k: int| 0 <= k < t.len() ==> t[k] == s@[k + start]);
        lemma_split_no_colon(t);
        assert(t =~= s@.subrange(start as int, n as int));
    }
    fields.push(last.to_owned());
    proof {
        assert(fields.deep_view() =~= fields.deep_view().drop_last() + seq![
            s@.subrange(start as int, n as int),
        ]);
    }
    fields
}

/// Parses the lockfile contents. A well-formed line has at least four
/// colon-delimited fields; the result then carries exactly the third and
/// fourth as port and credential. Fewer fields are a path error.
pub fn parse_lockfile(contents: &str) -> (r: AppResult<ConnectionDescriptor>)
    ensures
        split_colon(contents@).len() >= 4 ==> (match r {
            Ok(d) => d.port@ == split_colon(contents@)[2] && d.credential@ == split_colon(
                contents@,
            )[3],
            Err(_) => false,
        }),
        split_colon(contents@).len() < 4 ==> (match r {
            Ok(_) => false,
            Err(e) => e is PathError,
        }),
{
    let fields = split_fields(contents);
    if fields.len() < 4 {
        Err(AppError::PathError("lockfile has fewer than 4 fields".to_owned()))
    } else {
        let port = fields[2].clone();
        let credential = fields[3].clone();
        proof {
            assert(port@ == fields.deep_view()[2]);
            assert(credential@ == fields.deep_view()[3]);
        }
        Ok(ConnectionDescriptor { port, credential })
    }
}

} // verus!
