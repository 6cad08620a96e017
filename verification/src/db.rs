use vstd::prelude::*;

verus! {

/// The connection URL of a PostgreSQL database:
/// `postgres://<user>:<pwd>@<host>/<db>`.
pub open spec fn postgres_url(user: Seq<char>, pwd: Seq<char>, host: Seq<char>, db: Seq<char>) -> Seq<char> {
    "postgres://"@ + user + ":"@ + pwd + "@"@ + host + "/"@ + db
}

/// Builds the connection URL of a PostgreSQL database.
pub fn connection_string(user: &str, pwd: &str, host: &str, db: &str) -> (r: String)
    ensures
        r@ == postgres_url(user@, pwd@, host@, db@),
{
    let mut s = "postgres://".to_owned();
    s.append(user);
    s.append(":");
    s.append(pwd);
    s.append("@");
    s.append(host);
    s.append("/");
    s.append(db);
    s
}

/// The separator between the statements of an SQL script.
pub open spec fn statement_separator() -> char {
    ';'
}

/// The pieces of `s` between occurrences of `sep`, in order: one more piece
/// than there are separators, empty pieces included.
pub open spec fn split_on(s: Seq<char>, sep: char) -> Seq<Seq<char>>
    decreases s.len(),
{
    if s.len() == 0 {
        seq![Seq::<char>::empty()]
    } else {
        let before = split_on(s.drop_last(), sep);
        if s.last() == sep {
            before.push(Seq::<char>::empty())
        } else {
            before.update(before.len() - 1, before.last().push(s.last()))
        }
    }
}

/// The pieces joined back together with `sep` between them.
pub open spec fn join_with(pieces: Seq<Seq<char>>, sep: char) -> Seq<char>
    decreases pieces.len(),
{
    if pieces.len() == 0 {
        Seq::<char>::empty()
    } else if pieces.len() == 1 {
        pieces[0]
    } else {
        join_with(pieces.drop_last(), sep) + seq![sep] + pieces.last()
    }
}

proof fn lemma_split_on_nonempty(s: Seq<char>, sep: char)
    ensures
        split_on(s, sep).len() >= 1,
    decreases s.len(),
{
    if s.len() > 0 {
        lemma_split_on_nonempty(s.drop_last(), sep);
    }
}

/// Splits an SQL script into its statements at every ';', as `str::split`
/// does: the pieces between the separators, in order, empty ones included.
pub fn split_statements(content: &str) -> (r: Vec<String>)
    ensures
        r@.len() == split_on(content@, statement_separator()).len(),
        forall|k: int| 0 <= k < r@.len() ==> #[trigger] r@[k]@ == split_on(content@, statement_separator())[k],
{
    let n = content.unicode_len();
    let mut pieces: Vec<String> = Vec::new();
    let mut start: usize = 0;
    let mut i: usize = 0;
    assert(content@.take(0) =~= Seq::<char>::empty());
    while i < n
        invariant
            n == content@.len(),
            start <= i <= n,
            split_on(content@.take(i as int), ';').len() == pieces@.len() + 1,
            forall|k: int| 0 <= k < pieces@.len() ==> #[trigger] pieces@[k]@ == split_on(content@.take(i as int), ';')[k],
            split_on(content@.take(i as int), ';').last() == content@.subrange(start as int, i as int),
        decreases n - i,
    {
        let c = content.get_char(i);
        let ghost prefix = content@.take(i as int);
        let ghost next = content@.take(i + 1);
        assert(next.drop_last() =~= prefix);
        assert(next.last() == c);
        proof {
            lemma_split_on_nonempty(prefix, ';');
        }
        if c == ';' {
            let piece = content.substring_char(start, i);
            pieces.push(piece.to_owned());
            start = i + 1;
            assert(split_on(next, ';') == split_on(prefix, ';').push(Seq::<char>::empty()));
            assert(content@.subrange(start as int, i + 1) =~= Seq::<char>::empty());
        } else {
            assert(content@.subrange(start as int, i + 1) =~= content@.subrange(start as int, i as int).push(c));
        }
        i = i + 1;
    }
    let last = content.substring_char(start, n);
    pieces.push(last.to_owned());
    assert(content@.take(n as int) =~= content@);
    pieces
}

/// Joining the statements of a script back with ';' gives the script again.
pub proof fn lemma_split_join_round_trip(s: Seq<char>, sep: char)
    ensures
        join_with(split_on(s, sep), sep) == s,
    decreases s.len(),
{
    if s.len() > 0 {
        let init = s.drop_last();
        lemma_split_join_round_trip(init, sep);
        lemma_split_on_nonempty(init, sep);
        let before = split_on(init, sep);
        if s.last() == sep {
            let after = before.push(Seq::<char>::empty());
            assert(after.drop_last() =~= before);
            assert(join_with(after, sep) == join_with(before, sep) + seq![sep] + Seq::<char>::empty());
            assert(join_with(after, sep) =~= s);
        } else {
            let after = before.update(before.len() - 1, before.last().push(s.last()));
            if before.len() == 1 {
                assert(join_with(after, sep) =~= s);
            } else {
                assert(after.drop_last() =~= before.drop_last());
                assert(after.last() == before.last().push(s.last()));
                assert(join_with(before, sep) == join_with(before.drop_last(), sep) + seq![sep] + before.last());
                assert(join_with(after, sep) == join_with(before.drop_last(), sep) + seq![sep] + before.last().push(s.last()));
                assert(join_with(after, sep) =~= init.push(s.last()));
                assert(init.push(s.last()) =~= s);
            }
        }
    }
}

/// No statement of a split script holds the separator.
pub proof fn lemma_split_pieces_lack_separator(s: Seq<char>, sep: char)
    ensures
        forall|k: int| 0 <= k < split_on(s, sep).len() ==> !(#[trigger] split_on(s, sep)[k]).contains(sep),
    decreases s.len(),
{
    if s.len() > 0 {
        let init = s.drop_last();
        lemma_split_pieces_lack_separator(init, sep);
        lemma_split_on_nonempty(init, sep);
        let before = split_on(init, sep);
        let after = split_on(s, sep);
        assert forall|k: int| 0 <= k < after.len() implies !(#[trigger] after[k]).contains(sep) by {
            if s.last() == sep {
                if k < before.len() {
                    assert(after[k] == before[k]);
                } else {
                    assert(after[k] =~= Seq::<char>::empty());
                }
            } else if k < before.len() - 1 {
                assert(after[k] == before[k]);
            } else {
                let x = before.last();
                assert(!before[before.len() - 1].contains(sep));
                assert(after[k] == x.push(s.last()));
                if x.push(s.last()).contains(sep) {
                    let j = choose|j: int| 0 <= j < x.push(s.last()).len() && x.push(s.last())[j] == sep;
                    if j < x.len() {
                        assert(x.contains(sep));
                    }
                }
            }
        }
    }
}

} // verus!
