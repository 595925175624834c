use vstd::prelude::*;

verus! {

/// Why a DNS message could not be read.
#[derive(Debug, Clone, Copy, PartialEq, Eq, Structural)]
pub enum DnsError {
    /// A read went past the end of the message.
    EndOfBuffer,
    /// A name followed more compression pointers than allowed.
    TooManyJumps,
}

/// Length of the fixed DNS header.
pub const HEADER_LEN: usize = 12;

/// How many compression pointers one name may follow.
pub const MAX_JUMPS: usize = 5;

/// The labels of the name that starts at `pos` in `buf`, following at most
/// `jumps` compression pointers (a length byte with both top bits set, whose
/// low six bits and the next byte give the position where the name goes on).
pub open spec fn read_qname(buf: Seq<u8>, pos: int, jumps: nat) -> Result<Seq<Seq<u8>>, DnsError>
    decreases jumps, buf.len() - pos,
{
    if pos < 0 || pos >= buf.len() {
        Err(DnsError::EndOfBuffer)
    } else if buf[pos] >= 0xC0 {
        if pos + 1 >= buf.len() {
            Err(DnsError::EndOfBuffer)
        } else if jumps == 0 {
            Err(DnsError::TooManyJumps)
        } else {
            read_qname(buf, (buf[pos] - 0xC0) * 256 + buf[pos + 1], (jumps - 1) as nat)
        }
    } else if buf[pos] == 0 {
        Ok(seq![])
    } else if pos + 1 + buf[pos] > buf.len() {
        Err(DnsError::EndOfBuffer)
    } else {
        match read_qname(buf, pos + 1 + buf[pos], jumps) {
            Ok(rest) => Ok(seq![buf.subrange(pos + 1, pos + 1 + buf[pos])] + rest),
            Err(e) => Err(e),
        }
    }
}

/// The labels written one after the other with a `.` between two of them.
pub open spec fn join_labels(labels: Seq<Seq<u8>>) -> Seq<u8>
    decreases labels.len(),
{
    if labels.len() == 0 {
        seq![]
    } else if labels.len() == 1 {
        labels[0]
    } else {
        join_labels(labels.drop_last()) + seq![0x2Eu8] + labels.last()
    }
}

/// What the first question of the DNS message `packet` asks about: `None`
/// when the header announces no question, else the dotted name.
pub open spec fn question_name(packet: Seq<u8>) -> Result<Option<Seq<u8>>, DnsError> {
    if packet.len() < HEADER_LEN {
        Err(DnsError::EndOfBuffer)
    } else if packet[4] == 0 && packet[5] == 0 {
        Ok(None)
    } else {
        match read_qname(packet, HEADER_LEN as int, MAX_JUMPS as nat) {
            Ok(labels) => Ok(Some(join_labels(labels))),
            Err(e) => Err(e),
        }
    }
}

/// The labels in uncompressed wire form: each after its length byte, then a
/// zero byte.
pub open spec fn encode_labels(labels: Seq<Seq<u8>>) -> Seq<u8>
    decreases labels.len(),
{
    if labels.len() == 0 {
        seq![0u8]
    } else {
        seq![labels[0].len() as u8] + labels[0] + encode_labels(labels.drop_first())
    }
}

/// Whether every label has between one and sixty-three bytes, as names on
/// the wire do.
pub open spec fn valid_labels(labels: Seq<Seq<u8>>) -> bool {
    forall|i: int| 0 <= i < labels.len() ==> 1 <= (#[trigger] labels[i]).len() <= 63
}

/// A name written in uncompressed form is read back as it was written,
/// wherever it stands in the message and whatever follows it.
pub proof fn law_written_name_reads_back(before: Seq<u8>, labels: Seq<Seq<u8>>, after: Seq<u8>, jumps: nat)
    requires
        valid_labels(labels),
    ensures
        read_qname(before + encode_labels(labels) + after, before.len() as int, jumps) == Ok::<
            Seq<Seq<u8>>,
            DnsError,
        >(labels),
    decreases labels.len(),
{
    let buf = before + encode_labels(labels) + after;
    let pos = before.len() as int;
    if labels.len() == 0 {
        assert(buf[pos] == 0);
        assert(labels =~= Seq::<Seq<u8>>::empty());
    } else {
        let l = labels[0];
        let rest = labels.drop_first();
        assert(valid_labels(rest)) by {
            assert forall|i: int| 0 <= i < rest.len() implies 1 <= (#[trigger] rest[i]).len() <= 63 by {
                assert(rest[i] == labels[i + 1]);
            }
        }
        let before2 = before + seq![l.len() as u8] + l;
        assert(buf =~= before2 + encode_labels(rest) + after);
        assert(buf[pos] == l.len() as u8);
        assert(buf.subrange(pos + 1, pos + 1 + l.len()) =~= l);
        law_written_name_reads_back(before2, rest, after, jumps);
        assert(before2.len() == pos + 1 + l.len());
        assert(buf[pos] as int == l.len());
        assert(read_qname(buf, pos + 1 + l.len(), jumps) == Ok::<Seq<Seq<u8>>, DnsError>(rest));
        assert(seq![l] + rest =~= labels);
    }
}

/// The first question of a message is read from the name that follows the
/// header, whatever the other header fields (identifier, flags, answer,
/// authority and additional counts) hold: when the header announces at least
/// one question and an uncompressed name stands right after it, the result
/// is that name with a dot between two labels.
pub proof fn law_first_question_is_the_name_after_the_header(
    packet: Seq<u8>,
    labels: Seq<Seq<u8>>,
)
    requires
        packet.len() >= HEADER_LEN + encode_labels(labels).len(),
        !(packet[4] == 0 && packet[5] == 0),
        packet.subrange(HEADER_LEN as int, HEADER_LEN + encode_labels(labels).len()) == encode_labels(labels),
        valid_labels(labels),
    ensures
        question_name(packet) == Ok::<Option<Seq<u8>>, DnsError>(Some(join_labels(labels))),
        labels.len() >= 2 ==> join_labels(labels) == join_labels(labels.drop_last()) + seq![0x2Eu8]
            + labels.last(),
        labels.len() == 1 ==> join_labels(labels) == labels[0],
{
    let enc = encode_labels(labels);
    let before = packet.subrange(0, HEADER_LEN as int);
    let after = packet.subrange(HEADER_LEN + enc.len(), packet.len() as int);
    assert(packet =~= before + enc + after);
    law_written_name_reads_back(before, labels, after, MAX_JUMPS as nat);
}

/// A message whose header announces no question asks about nothing, and a
/// message shorter than a header cannot be read.
pub proof fn law_no_question_no_name(packet: Seq<u8>)
    ensures
        packet.len() >= HEADER_LEN && packet[4] == 0 && packet[5] == 0 ==> question_name(packet) == Ok::<
            Option<Seq<u8>>,
            DnsError,
        >(None),
        packet.len() < HEADER_LEN ==> question_name(packet) == Err::<Option<Seq<u8>>, DnsError>(
            DnsError::EndOfBuffer,
        ),
{
}

proof fn lemma_join_push(labels: Seq<Seq<u8>>, l: Seq<u8>)
    ensures
        join_labels(labels.push(l)) == if labels.len() == 0 {
            l
        } else {
            join_labels(labels) + seq![0x2Eu8] + l
        },
{
    assert(labels.push(l).drop_last() =~= labels);
}

/// Reads the dotted name that starts at `start` in `buf`.
pub fn read_name(buf: &[u8], start: usize) -> (r: Result<Vec<u8>, DnsError>)
    ensures
        match (read_qname(buf@, start as int, MAX_JUMPS as nat), r) {
            (Ok(labels), Ok(name)) => name@ == join_labels(labels),
            (Err(e), Err(f)) => e == f,
            _ => false,
        },
{
    let ghost whole = read_qname(buf@, start as int, MAX_JUMPS as nat);
    let mut out: Vec<u8> = Vec::new();
    let ghost mut acc: Seq<Seq<u8>> = seq![];
    let mut pos: usize = start;
    let mut jumps: usize = MAX_JUMPS;
    let mut first = true;
    loop
        invariant
            first == (acc.len() == 0),
            jumps <= MAX_JUMPS,
            whole == read_qname(buf@, start as int, MAX_JUMPS as nat),
            out@ == join_labels(acc),
            whole == match read_qname(buf@, pos as int, jumps as nat) {
                Ok(rest) => Ok::<Seq<Seq<u8>>, DnsError>(acc + rest),
                Err(e) => Err(e),
            },
        decreases jumps, buf@.len() - pos,
    {
        if pos >= buf.len() {
            return Err(DnsError::EndOfBuffer);
        }
        let len = buf[pos];
        if len >= 0xC0 {
            if pos + 1 >= buf.len() {
                return Err(DnsError::EndOfBuffer);
            }
            if jumps == 0 {
                return Err(DnsError::TooManyJumps);
            }
            let b2 = buf[pos + 1];
            pos = (len - 0xC0) as usize * 256 + b2 as usize;
            jumps = jumps - 1;
        } else if len == 0 {
            assert(acc + seq![] =~= acc);
            return Ok(out);
        } else {
            let l = len as usize;
            if l > buf.len() - pos - 1 {
                return Err(DnsError::EndOfBuffer);
            }
            let end = pos + 1 + l;
            let ghost label = buf@.subrange(pos + 1, pos + 1 + l);
            proof {
                lemma_join_push(acc, label);
            }
            if !first {
                out.push(0x2Eu8);
            }
            first = false;
            let ghost before = out@;
            let mut k: usize = pos + 1;
            while k < end
                invariant
                    end == pos + 1 + l,
                    pos + 1 <= k <= pos + 1 + l,
                    pos + 1 + l <= buf@.len(),
                    out@ == before + buf@.subrange(pos + 1, k as int),
                decreases end - k,
            {
                out.push(buf[k]);
                assert(buf@.subrange(pos + 1, k + 1) =~= buf@.subrange(pos + 1, k as int).push(buf@[k as int]));
                k = k + 1;
            }
            proof {
                match read_qname(buf@, (pos + 1 + l) as int, jumps as nat) {
                    Ok(rest) => {
                        assert(acc + (seq![label] + rest) =~= acc.push(label) + rest);
                    },
                    Err(e) => {},
                }
                acc = acc.push(label);
            }
            pos = end;
        }
    }
}

/// The name that the first question of the DNS message `packet` asks about,
/// or `None` when the message holds no question.
pub fn first_question_name(packet: &[u8]) -> (r: Result<Option<Vec<u8>>, DnsError>)
    ensures
        match (question_name(packet@), r) {
            (Ok(None), Ok(None)) => true,
            (Ok(Some(expected)), Ok(Some(name))) => name@ == expected,
            (Err(e), Err(f)) => e == f,
            _ => false,
        },
{
    if packet.len() < HEADER_LEN {
        return Err(DnsError::EndOfBuffer);
    }
    if packet[4] == 0 && packet[5] == 0 {
        return Ok(None);
    }
    match read_name(packet, HEADER_LEN) {
        Ok(name) => Ok(Some(name)),
        Err(e) => Err(e),
    }
}

} // verus!
