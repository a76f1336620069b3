use vstd::prelude::*;

verus! {

/// The table built from `names`: each name's bytes followed by a single
/// zero byte, in list order.
pub open spec fn spec_table(names: Seq<Seq<u8>>) -> Seq<u8>
    decreases names.len(),
{
    if names.len() == 0 {
        Seq::empty()
    } else {
        names[0] + seq![0u8] + spec_table(names.skip(1))
    }
}

/// The starting byte offset of name `i` in the table: the length of the
/// table built from the names before it.
pub open spec fn spec_offset(names: Seq<Seq<u8>>, i: int) -> int {
    spec_table(names.take(i)).len() as int
}

/// The views of a list of name vectors.
pub open spec fn spec_name_seqs(names: Seq<Vec<u8>>) -> Seq<Seq<u8>> {
    Seq::new(names.len(), |i: int| names[i]@)
}

/// The longest zero-free prefix of `t`.
pub open spec fn spec_take_until_null(t: Seq<u8>) -> Seq<u8>
    decreases t.len(),
{
    if t.len() == 0 {
        Seq::empty()
    } else if t[0] == 0u8 {
        Seq::empty()
    } else {
        seq![t[0]] + spec_take_until_null(t.skip(1))
    }
}

/// `t` split at its zero bytes: each chunk runs up to and loses its
/// terminator; a trailing unterminated chunk stands on its own.
pub open spec fn spec_split_nulls(t: Seq<u8>) -> Seq<Seq<u8>>
    decreases t.len(),
    via split_nulls_decreases
{
    if t.len() == 0 {
        Seq::empty()
    } else {
        let name = spec_take_until_null(t);
        if name.len() == t.len() {
            seq![name]
        } else {
            seq![name] + spec_split_nulls(t.skip(name.len() as int + 1))
        }
    }
}

/// The zero-free prefix is never longer than the whole.
pub proof fn lemma_take_until_null_len(t: Seq<u8>)
    ensures
        spec_take_until_null(t).len() <= t.len(),
    decreases t.len(),
{
    if t.len() == 0 {
    } else if t[0] == 0u8 {
    } else {
        lemma_take_until_null_len(t.skip(1));
    }
}

#[via_fn]
proof fn split_nulls_decreases(t: Seq<u8>) {
    lemma_take_until_null_len(t);
}

/// Appending one more name appends its bytes and a terminator.
pub proof fn lemma_table_push(names: Seq<Seq<u8>>, name: Seq<u8>)
    ensures
        spec_table(names.push(name)) == spec_table(names) + name + seq![0u8],
    decreases names.len(),
{
    if names.len() == 0 {
        let p = names.push(name);
        assert(p[0] == name);
        assert(p.skip(1) =~= Seq::<Seq<u8>>::empty());
        assert(spec_table(p.skip(1)) == Seq::<u8>::empty());
        assert(spec_table(names) == Seq::<u8>::empty());
        assert(spec_table(p) == p[0] + seq![0u8] + spec_table(p.skip(1)));
        assert(spec_table(p) =~= spec_table(names) + name + seq![0u8]);
    } else {
        assert(names.push(name).skip(1) =~= names.skip(1).push(name));
        lemma_table_push(names.skip(1), name);
        assert(spec_table(names.push(name)) =~= spec_table(names) + name + seq![0u8]);
    }
}

/// The table of a prefix of the names is never longer than the whole
/// table.
pub proof fn lemma_table_take_le(names: Seq<Seq<u8>>, i: int)
    requires
        0 <= i <= names.len(),
    ensures
        spec_table(names.take(i)).len() <= spec_table(names).len(),
    decreases names.len() - i,
{
    if i == names.len() {
        assert(names.take(i) =~= names);
    } else {
        assert(names.take(i + 1) =~= names.take(i).push(names[i]));
        lemma_table_push(names.take(i), names[i]);
        lemma_table_take_le(names, i + 1);
    }
}

/// The zero-free prefix of a terminated name followed by anything is the
/// name itself.
proof fn lemma_take_until_null_of_terminated(name: Seq<u8>, rest: Seq<u8>)
    requires
        !name.contains(0u8),
    ensures
        spec_take_until_null(name + seq![0u8] + rest) == name,
    decreases name.len(),
{
    let t = name + seq![0u8] + rest;
    if name.len() == 0 {
        assert(t[0] == 0u8);
        assert(spec_take_until_null(t) =~= name);
    } else {
        assert(name[0] != 0u8);
        assert(t[0] == name[0]);
        assert(t.skip(1) =~= name.skip(1) + seq![0u8] + rest);
        assert(!name.skip(1).contains(0u8)) by {
            if name.skip(1).contains(0u8) {
                let j = choose|j: int| 0 <= j < name.skip(1).len() && name.skip(1)[j] == 0u8;
                assert(name[j + 1] == 0u8);
            }
        }
        lemma_take_until_null_of_terminated(name.skip(1), rest);
        assert(spec_take_until_null(t) =~= name);
    }
}

/// The round trip of the string table: splitting the table built from
/// names that hold no zero byte gives back exactly those names, in order.
pub proof fn lemma_split_round_trip(names: Seq<Seq<u8>>)
    requires
        forall|i: int| 0 <= i < names.len() ==> !(#[trigger] names[i]).contains(0u8),
    ensures
        spec_split_nulls(spec_table(names)) == names,
    decreases names.len(),
{
    if names.len() == 0 {
        assert(spec_split_nulls(spec_table(names)) =~= names);
    } else {
        let t = spec_table(names);
        let head = names[0];
        let tail_table = spec_table(names.skip(1));
        assert(t == head + seq![0u8] + tail_table);
        lemma_take_until_null_of_terminated(head, tail_table);
        assert(spec_take_until_null(t) == head);
        assert(t.len() == head.len() + 1 + tail_table.len());
        assert(head.len() < t.len());
        assert(t.skip(head.len() as int + 1) =~= tail_table);
        assert(forall|i: int|
            0 <= i < names.skip(1).len() ==> !(#[trigger] names.skip(1)[i]).contains(0u8)) by {
            assert(forall|i: int|
                0 <= i < names.skip(1).len() ==> names.skip(1)[i] == names[i + 1]);
        }
        lemma_split_round_trip(names.skip(1));
        assert(spec_split_nulls(t) == seq![head] + names.skip(1));
        assert(seq![head] + names.skip(1) =~= names);
    }
}

/// Build the table: each name's bytes and a zero terminator, in order.
pub fn string_table_bytes(names: &Vec<Vec<u8>>) -> (r: Vec<u8>)
    ensures
        r@ == spec_table(spec_name_seqs(names@)),
{
    let mut r: Vec<u8> = Vec::new();
    let mut idx: usize = 0;
    proof {
        assert(spec_name_seqs(names@).take(0) =~= Seq::<Seq<u8>>::empty());
    }
    while idx < names.len()
        invariant
            idx <= names@.len(),
            r@ == spec_table(spec_name_seqs(names@).take(idx as int)),
        decreases names@.len() - idx,
    {
        proof {
            assert(spec_name_seqs(names@).take(idx + 1) =~= spec_name_seqs(names@).take(
                idx as int,
            ).push(names@[idx as int]@));
            lemma_table_push(spec_name_seqs(names@).take(idx as int), names@[idx as int]@);
        }
        r.extend_from_slice(names[idx].as_slice());
        r.push(0u8);
        proof {
            assert(r@ =~= spec_table(spec_name_seqs(names@).take(idx + 1)));
        }
        idx = idx + 1;
    }
    proof {
        assert(spec_name_seqs(names@).take(names@.len() as int) =~= spec_name_seqs(names@));
    }
    r
}

/// Compute each name's starting offset: the running sum of the earlier
/// names' lengths, each counted with its terminator.
pub fn string_table_offsets(names: &Vec<Vec<u8>>) -> (r: Vec<usize>)
    requires
        spec_table(spec_name_seqs(names@)).len() <= usize::MAX,
    ensures
        r@.len() == names@.len(),
        forall|i: int|
            0 <= i < names@.len() ==> r@[i] == spec_offset(spec_name_seqs(names@), i),
{
    let mut r: Vec<usize> = Vec::new();
    let mut offset: usize = 0;
    let mut idx: usize = 0;
    proof {
        assert(spec_name_seqs(names@).take(0) =~= Seq::<Seq<u8>>::empty());
    }
    while idx < names.len()
        invariant
            idx <= names@.len(),
            spec_table(spec_name_seqs(names@)).len() <= usize::MAX,
            offset == spec_offset(spec_name_seqs(names@), idx as int),
            r@.len() == idx,
            forall|i: int| 0 <= i < idx ==> r@[i] == spec_offset(spec_name_seqs(names@), i),
        decreases names@.len() - idx,
    {
        r.push(offset);
        proof {
            assert(spec_name_seqs(names@).take(idx + 1) =~= spec_name_seqs(names@).take(
                idx as int,
            ).push(names@[idx as int]@));
            lemma_table_push(spec_name_seqs(names@).take(idx as int), names@[idx as int]@);
            lemma_table_take_le(spec_name_seqs(names@), idx + 1);
        }
        offset = offset + names[idx].len() + 1;
        idx = idx + 1;
    }
    r
}

} // verus!
