//! The known-packs configuration packet: the list of resource packs the
//! server knows, framed as a variable-length count followed by three
//! length-prefixed strings per pack. The frame is produced here as plain
//! bytes; the host hands them to its transport buffer.

use vstd::prelude::*;

verus! {

/// One known resource pack; the three fields are the raw bytes of its
/// namespace, id, and version strings.
#[derive(Clone, PartialEq, Eq, Debug)]
pub struct KnownPack {
    pub namespace: Vec<u8>,
    pub id: Vec<u8>,
    pub version: Vec<u8>,
}

/// The clientbound known-packs packet.
pub struct CKnownPacks {
    pub known_packs: Vec<KnownPack>,
}

/// The variable-length encoding of an unsigned count: seven bits per byte,
/// least significant group first, high bit marking a continuation.
pub open spec fn spec_varint(n: nat) -> Seq<u8>
    decreases n,
{
    if n < 128 {
        seq![n as u8]
    } else {
        seq![(n % 128 + 128) as u8] + spec_varint(n / 128)
    }
}

/// A length-prefixed string: the varint byte count, then the bytes.
pub open spec fn spec_string_bytes(s: Seq<u8>) -> Seq<u8> {
    spec_varint(s.len()) + s
}

/// One pack's frame: namespace, id, version, each length-prefixed.
pub open spec fn spec_pack_bytes(p: KnownPack) -> Seq<u8> {
    spec_string_bytes(p.namespace@) + spec_string_bytes(p.id@) + spec_string_bytes(p.version@)
}

/// The frames of a pack list, in order.
pub open spec fn spec_packs_bytes(ps: Seq<KnownPack>) -> Seq<u8>
    decreases ps.len(),
{
    if ps.len() == 0 {
        Seq::empty()
    } else {
        spec_packs_bytes(ps.drop_last()) + spec_pack_bytes(ps.last())
    }
}

/// The whole packet: the varint pack count, then each pack's frame.
pub open spec fn spec_known_packs_bytes(ps: Seq<KnownPack>) -> Seq<u8> {
    spec_varint(ps.len()) + spec_packs_bytes(ps)
}

/// Appends the varint encoding of `n`.
fn write_varint(out: &mut Vec<u8>, n: u32)
    ensures
        final(out)@ == old(out)@ + spec_varint(n as nat),
{
    let mut v: u32 = n;
    while v >= 128
        invariant
            out@ + spec_varint(v as nat) == old(out)@ + spec_varint(n as nat),
        decreases v,
    {
        out.push((v % 128 + 128) as u8);
        v = v / 128;
    }
    out.push(v as u8);
}

/// Appends a length-prefixed string.
fn write_string(out: &mut Vec<u8>, s: &Vec<u8>)
    requires
        s@.len() <= u32::MAX,
    ensures
        final(out)@ == old(out)@ + spec_string_bytes(s@),
{
    write_varint(out, s.len() as u32);
    let n = s.len();
    let mut i: usize = 0;
    while i < n
        invariant
            n == s@.len(),
            i <= n,
            out@ == old(out)@ + spec_varint(s@.len()) + s@.subrange(0, i as int),
        decreases n - i,
    {
        out.push(s[i]);
        proof {
            assert(s@.subrange(0, i as int).push(s@[i as int]) =~= s@.subrange(0, i as int + 1));
        }
        i += 1;
    }
    proof {
        assert(s@.subrange(0, n as int) =~= s@);
    }
}

impl CKnownPacks {
    /// Every string and the list itself fit a varint count.
    pub open spec fn wf(self) -> bool {
        self.known_packs@.len() <= u32::MAX && forall|k: int|
            0 <= k < self.known_packs@.len() ==> (#[trigger] self.known_packs@[k]).namespace@.len()
                <= u32::MAX && self.known_packs@[k].id@.len() <= u32::MAX
                && self.known_packs@[k].version@.len() <= u32::MAX
    }

    /// Wraps a pack list as the packet.
    pub fn new(known_packs: Vec<KnownPack>) -> (r: CKnownPacks)
        ensures
            r.known_packs == known_packs,
    {
        CKnownPacks { known_packs }
    }

    /// Frames the packet body as bytes: the pack count, then each pack's
    /// namespace, id, and version, every string length-prefixed.
    pub fn write(&self) -> (out: Vec<u8>)
        requires
            self.wf(),
        ensures
            out@ == spec_known_packs_bytes(self.known_packs@),
    {
        let mut out: Vec<u8> = Vec::new();
        write_varint(&mut out, self.known_packs.len() as u32);
        let n = self.known_packs.len();
        let mut i: usize = 0;
        proof {
            assert(self.known_packs@.subrange(0, 0) =~= Seq::<KnownPack>::empty());
        }
        while i < n
            invariant
                self.wf(),
                n == self.known_packs@.len(),
                i <= n,
                out@ == spec_varint(self.known_packs@.len()) + spec_packs_bytes(
                    self.known_packs@.subrange(0, i as int),
                ),
            decreases n - i,
        {
            let p = &self.known_packs[i];
            write_string(&mut out, &p.namespace);
            write_string(&mut out, &p.id);
            write_string(&mut out, &p.version);
            proof {
                let pre = self.known_packs@.subrange(0, i as int);
                let cur = self.known_packs@.subrange(0, i as int + 1);
                assert(cur.drop_last() =~= pre);
                assert(cur.last() == self.known_packs@[i as int]);
            }
            i += 1;
        }
        proof {
            assert(self.known_packs@.subrange(0, n as int) =~= self.known_packs@);
        }
        out
    }
}

} // verus!
