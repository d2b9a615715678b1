//! The frame of a saved state: a sequence of sections, each written as
//! its length in four bytes, lowest first, and then its bytes.

use crate::cartridge::format::copy_range;
use vstd::prelude::*;

verus! {

/// The longest section that can be written.
pub const MAX_SECTION: usize = 0xFFFF_FFFF;

/// The four bytes that stand for `length`, lowest first.
pub open spec fn length_bytes(length: nat) -> Seq<u8> {
    seq![
        (length % 256) as u8,
        ((length / 0x100) % 256) as u8,
        ((length / 0x1_0000) % 256) as u8,
        ((length / 0x100_0000) % 256) as u8,
    ]
}

/// The length that the four bytes of `bytes` from `at` on stand for.
pub open spec fn length_at(bytes: Seq<u8>, at: int) -> nat {
    (bytes[at] + bytes[at + 1] * 0x100 + bytes[at + 2] * 0x1_0000 + bytes[at + 3] * 0x100_0000) as nat
}

/// The bytes that stand for one section.
pub open spec fn framed(section: Seq<u8>) -> Seq<u8> {
    length_bytes(section.len()) + section
}

/// The bytes that stand for `sections`, one after the other.
pub open spec fn joined(sections: Seq<Seq<u8>>) -> Seq<u8>
    decreases sections.len(),
{
    if sections.len() == 0 {
        Seq::empty()
    } else {
        joined(sections.drop_last()) + framed(sections.last())
    }
}

/// The `count` sections that `bytes` holds from `at` on, and where they
/// end, if it holds that many.
pub open spec fn split(bytes: Seq<u8>, at: int, count: nat) -> Option<(Seq<Seq<u8>>, int)>
    decreases count,
{
    if count == 0 {
        Some((Seq::empty(), at))
    } else {
        match split(bytes, at, (count - 1) as nat) {
            None => None,
            Some((sections, end)) => {
                if 0 <= end && end + 4 <= bytes.len() && end + 4 + length_at(bytes, end)
                    <= bytes.len() {
                    Some(
                        (
                            sections.push(
                                bytes.subrange(end + 4, end + 4 + length_at(bytes, end)),
                            ),
                            end + 4 + length_at(bytes, end),
                        ),
                    )
                } else {
                    None
                }
            },
        }
    }
}

/// Whether every section is short enough to be written.
pub open spec fn writable(sections: Seq<Seq<u8>>) -> bool {
    forall|i: int| 0 <= i < sections.len() ==> (#[trigger] sections[i]).len() <= MAX_SECTION
}

/// The length that four bytes stand for is the length that they were
/// written for.
pub proof fn lemma_length_round_trip(length: nat)
    requires
        length <= MAX_SECTION,
    ensures
        length_at(length_bytes(length), 0) == length,
{
}

/// Sections of at most `bound` bytes each are at most that and four bytes
/// each when written.
pub proof fn lemma_joined_bound(sections: Seq<Seq<u8>>, bound: nat)
    requires
        forall|i: int| 0 <= i < sections.len() ==> (#[trigger] sections[i]).len() <= bound,
    ensures
        joined(sections).len() <= sections.len() * (bound + 4),
    decreases sections.len(),
{
    if sections.len() > 0 {
        let front = sections.drop_last();
        assert forall|i: int| 0 <= i < front.len() implies (#[trigger] front[i]).len() <= bound by {
            assert(front[i] == sections[i]);
        }
        lemma_joined_bound(front, bound);
        assert(sections.last() == sections[sections.len() - 1]);
        assert(front.len() * (bound + 4) + (bound + 4) == sections.len() * (bound + 4))
            by (nonlinear_arith)
            requires
                front.len() + 1 == sections.len(),
        ;
    } else {
        assert(sections.len() * (bound + 4) == 0) by (nonlinear_arith)
            requires
                sections.len() == 0,
        ;
    }
}

/// Sections that were joined behind `prefix` are found there again, and
/// they end where the bytes end.
pub proof fn lemma_split_joined(prefix: Seq<u8>, sections: Seq<Seq<u8>>)
    requires
        writable(sections),
    ensures
        split(prefix + joined(sections), prefix.len() as int, sections.len()) == Some(
            (sections, (prefix + joined(sections)).len() as int),
        ),
    decreases sections.len(),
{
    if sections.len() == 0 {
        assert(joined(sections) =~= Seq::<u8>::empty());
        assert(prefix + joined(sections) =~= prefix);
    } else {
        let front = sections.drop_last();
        let last = sections.last();
        let head = prefix + joined(front);
        let whole = prefix + joined(sections);
        assert(writable(front)) by {
            assert forall|i: int| 0 <= i < front.len() implies (#[trigger] front[i]).len()
                <= MAX_SECTION by {
                assert(front[i] == sections[i]);
            }
        }
        lemma_split_joined(prefix, front);
        assert(whole =~= head + framed(last));
        lemma_split_prefix(head, framed(last), prefix.len() as int, front.len());
        let end = head.len() as int;
        assert(last == sections[sections.len() - 1]);
        assert(last.len() <= MAX_SECTION);
        lemma_length_round_trip(last.len());
        assert(length_at(whole, end) == last.len()) by {
            assert(whole[end] == length_bytes(last.len())[0]);
            assert(whole[end + 1] == length_bytes(last.len())[1]);
            assert(whole[end + 2] == length_bytes(last.len())[2]);
            assert(whole[end + 3] == length_bytes(last.len())[3]);
        }
        assert(whole.subrange(end + 4, end + 4 + last.len()) =~= last);
        assert(front.push(last) =~= sections);
    }
}

/// What is found in `bytes` is found in `bytes` with more behind it.
pub proof fn lemma_split_prefix(bytes: Seq<u8>, more: Seq<u8>, at: int, count: nat)
    requires
        split(bytes, at, count).is_some(),
        0 <= at,
    ensures
        split(bytes + more, at, count) == split(bytes, at, count),
    decreases count,
{
    if count > 0 {
        lemma_split_prefix(bytes, more, at, (count - 1) as nat);
        let (sections, end) = split(bytes, at, (count - 1) as nat).unwrap();
        lemma_split_grows(bytes, at, (count - 1) as nat);
        let length = length_at(bytes, end);
        assert(length_at(bytes + more, end) == length);
        assert((bytes + more).subrange(end + 4, end + 4 + length) =~= bytes.subrange(
            end + 4,
            end + 4 + length,
        ));
    }
}

/// Sections are found behind where the search began.
pub proof fn lemma_split_grows(bytes: Seq<u8>, at: int, count: nat)
    requires
        split(bytes, at, count).is_some(),
        0 <= at,
    ensures
        at <= split(bytes, at, count).unwrap().1 <= bytes.len() || count == 0,
        at <= split(bytes, at, count).unwrap().1,
        split(bytes, at, count).unwrap().0.len() == count,
    decreases count,
{
    if count > 0 {
        lemma_split_grows(bytes, at, (count - 1) as nat);
    }
}

/// Writes the low 32 bits of `length` in four bytes.
pub fn write_length(out: &mut Vec<u8>, length: usize)
    ensures
        final(out)@ == old(out)@ + length_bytes(length as nat),
{
    out.push((length % 256) as u8);
    out.push(((length / 0x100) % 256) as u8);
    out.push(((length / 0x1_0000) % 256) as u8);
    out.push(((length / 0x100_0000) % 256) as u8);
    proof {
        assert(out@ =~= old(out)@ + length_bytes(length as nat));
    }
}

/// Writes one section: see [`framed`].
pub fn write_section(out: &mut Vec<u8>, section: &Vec<u8>)
    ensures
        final(out)@ == old(out)@ + framed(section@),
{
    write_length(out, section.len());
    let mut index: usize = 0;
    while index < section.len()
        invariant
            index <= section.len(),
            out@ == old(out)@ + length_bytes(section@.len()) + section@.subrange(0, index as int),
        decreases section.len() - index,
    {
        out.push(section[index]);
        proof {
            assert(out@ =~= old(out)@ + length_bytes(section@.len()) + section@.subrange(
                0,
                index + 1,
            ));
        }
        index = index + 1;
    }
    proof {
        assert(section@.subrange(0, section@.len() as int) =~= section@);
        assert(out@ =~= old(out)@ + framed(section@));
    }
}

/// Writes `sections` behind what `out` holds: see [`joined`].
pub fn append(out: &mut Vec<u8>, sections: &Vec<Vec<u8>>)
    ensures
        final(out)@ == old(out)@ + joined(views(sections@)),
{
    let mut index: usize = 0;
    let ghost all = views(sections@);
    proof {
        assert(all.subrange(0, 0) =~= Seq::<Seq<u8>>::empty());
        assert(out@ =~= old(out)@ + joined(all.subrange(0, 0)));
    }
    while index < sections.len()
        invariant
            index <= sections.len(),
            all == views(sections@),
            out@ == old(out)@ + joined(all.subrange(0, index as int)),
        decreases sections.len() - index,
    {
        proof {
            assert(all[index as int] == sections@[index as int]@);
            let next = all.subrange(0, index + 1);
            assert(next.drop_last() =~= all.subrange(0, index as int));
            assert(next.last() == all[index as int]);
        }
        let ghost before = out@;
        write_section(out, &sections[index]);
        proof {
            assert(out@ =~= old(out)@ + joined(all.subrange(0, index + 1)));
        }
        index = index + 1;
    }
    proof {
        assert(all.subrange(0, all.len() as int) =~= all);
    }
}

/// Writes `sections` one after the other: see [`joined`].
pub fn join(sections: &Vec<Vec<u8>>) -> (out: Vec<u8>)
    ensures
        out@ == joined(views(sections@)),
{
    let mut out: Vec<u8> = Vec::new();
    append(&mut out, sections);
    proof {
        assert(Seq::<u8>::empty() + joined(views(sections@)) =~= joined(views(sections@)));
    }
    out
}

/// Whether every one of `sections` is short enough to be written.
pub fn all_writable(sections: &Vec<Vec<u8>>) -> (r: bool)
    ensures
        r == writable(views(sections@)),
{
    let mut index: usize = 0;
    while index < sections.len()
        invariant
            index <= sections.len(),
            forall|i: int| 0 <= i < index ==> (#[trigger] views(sections@)[i]).len() <= MAX_SECTION,
        decreases sections.len() - index,
    {
        if sections[index].len() > MAX_SECTION {
            proof {
                assert(views(sections@)[index as int].len() > MAX_SECTION);
            }
            return false;
        }
        index = index + 1;
    }
    true
}

/// Reads the length at `at`, where four bytes can be read.
pub fn read_length(bytes: &Vec<u8>, at: usize) -> (length: usize)
    requires
        at + 4 <= bytes.len(),
    ensures
        length == length_at(bytes@, at as int),
        length <= MAX_SECTION,
{
    (bytes[at] as usize) + (bytes[at + 1] as usize) * 0x100 + (bytes[at + 2] as usize) * 0x1_0000
        + (bytes[at + 3] as usize) * 0x100_0000
}

/// The view of each of `sections`.
pub open spec fn views(sections: Seq<Vec<u8>>) -> Seq<Seq<u8>> {
    Seq::new(sections.len(), |i: int| sections[i]@)
}

/// Reads `count` sections from `at` on: see [`split`].
pub fn read_sections(bytes: &Vec<u8>, at: usize, count: usize) -> (r: Option<(Vec<Vec<u8>>, usize)>)
    ensures
        match r {
            Some((sections, end)) => split(bytes@, at as int, count as nat) == Some(
                (views(sections@), end as int),
            ) && sections@.len() == count && end <= bytes.len(),
            None => split(bytes@, at as int, count as nat).is_none() || at > bytes.len(),
        },
{
    if at > bytes.len() {
        return None;
    }
    let mut sections: Vec<Vec<u8>> = Vec::new();
    let mut end: usize = at;
    let mut found: usize = 0;
    proof {
        assert(views(sections@) =~= Seq::<Seq<u8>>::empty());
    }
    while found < count
        invariant
            found <= count,
            end <= bytes.len(),
            sections@.len() == found,
            split(bytes@, at as int, found as nat) == Some((views(sections@), end as int)),
        decreases count - found,
    {
        if bytes.len() - end < 4 {
            proof {
                lemma_split_stays_none(bytes@, at as int, (found + 1) as nat, count as nat);
            }
            return None;
        }
        let length = read_length(bytes, end);
        if bytes.len() - end - 4 < length {
            proof {
                lemma_split_stays_none(bytes@, at as int, (found + 1) as nat, count as nat);
            }
            return None;
        }
        let section = copy_range(bytes, end + 4, end + 4 + length);
        let ghost before = views(sections@);
        sections.push(section);
        proof {
            assert(views(sections@) =~= before.push(
                bytes@.subrange(end + 4, end + 4 + length_at(bytes@, end as int)),
            ));
        }
        end = end + 4 + length;
        found = found + 1;
    }
    Some((sections, end))
}

/// Where fewer sections are not found, more are not either.
pub proof fn lemma_split_stays_none(bytes: Seq<u8>, at: int, fewer: nat, count: nat)
    requires
        split(bytes, at, fewer).is_none(),
        fewer <= count,
    ensures
        split(bytes, at, count).is_none(),
    decreases count,
{
    if count > fewer {
        lemma_split_stays_none(bytes, at, fewer, (count - 1) as nat);
    }
}

} // verus!
