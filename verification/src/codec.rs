//! Base-64 framing for the initial-state collaborator: storage entries are
//! injected through the firmware's console as a write command whose name
//! and contents are carried in the standard unpadded base-64 encoding, so
//! that arbitrary bytes survive the character-oriented channel.

use vstd::prelude::*;

verus! {

/// The canonical unpadded standard-alphabet base-64 encoding of a byte
/// sequence, as ASCII bytes.
pub uninterp spec fn base64_of(b: Seq<u8>) -> Seq<u8>;

/// Relies on `base64::Engine::encode` with the standard alphabet and the
/// no-padding configuration: the result is the canonical unpadded encoding,
/// a function of the input bytes alone. The length bound keeps the
/// encoder's output-size computation from overflowing.
#[verifier::external_body]
pub(crate) fn b64_encode(b: &[u8]) -> (r: Vec<u8>)
    requires
        b@.len() * 4 <= usize::MAX,
    ensures
        r@ == base64_of(b@),
{
    base64::Engine::encode(&base64::engine::general_purpose::STANDARD_NO_PAD, b).into_bytes()
}

/// Relies on `base64::Engine::decode` with the standard alphabet and the
/// no-padding configuration, which requires no padding and rejects nonzero
/// trailing bits: it succeeds exactly on canonical unpadded encodings and
/// inverts the encoder.
#[verifier::external_body]
pub(crate) fn b64_decode(s: &[u8]) -> (r: Option<Vec<u8>>)
    ensures
        (exists|b: Seq<u8>| base64_of(b) == s@) ==> r is Some,
        r matches Some(v) ==> base64_of(v@) == s@,
        r matches Some(v) ==> forall|b: Seq<u8>| base64_of(b) == s@ ==> v@ == b,
{
    match base64::Engine::decode(&base64::engine::general_purpose::STANDARD_NO_PAD, s) {
        Ok(v) => Some(v),
        Err(_) => None,
    }
}

/// Encoding then decoding hands the original bytes back unchanged: the
/// base encoding of a storage entry is lossless.
pub fn base64_round_trip(data: &[u8]) -> (r: Vec<u8>)
    requires
        data@.len() * 4 <= usize::MAX,
    ensures
        r@ == data@,
{
    let enc = b64_encode(data);
    let dec = b64_decode(enc.as_slice());
    match dec {
        Some(v) => {
            proof {
                assert(base64_of(data@) == enc@);
            }
            v
        },
        None => {
            proof {
                assert(exists|b: Seq<u8>| base64_of(b) == enc@) by {
                    assert(base64_of(data@) == enc@);
                }
                assert(false);
            }
            Vec::new()
        },
    }
}

/// The command text up to the encoded entry name: a data-link-escape byte,
/// then `require('Storage').write(atob('` in ASCII.
pub open spec fn command_prefix() -> Seq<u8> {
    seq![
        16u8, 114u8, 101u8, 113u8, 117u8, 105u8, 114u8, 101u8, 40u8, 39u8, 83u8, 116u8, 111u8,
        114u8, 97u8, 103u8, 101u8, 39u8, 41u8, 46u8, 119u8, 114u8, 105u8, 116u8, 101u8, 40u8,
        97u8, 116u8, 111u8, 98u8, 40u8, 39u8,
    ]
}

/// The command text between the encoded name and the encoded contents:
/// `'), atob('` in ASCII.
pub open spec fn command_mid() -> Seq<u8> {
    seq![39u8, 41u8, 44u8, 32u8, 97u8, 116u8, 111u8, 98u8, 40u8, 39u8]
}

/// The command text after the encoded contents: `'));` and a newline, in
/// ASCII.
pub open spec fn command_suffix() -> Seq<u8> {
    seq![39u8, 41u8, 41u8, 59u8, 10u8]
}

/// The console command that injects one named storage entry: a storage
/// write whose name and contents arrive base-64 encoded.
pub open spec fn storage_write_command_spec(name: Seq<u8>, contents: Seq<u8>) -> Seq<u8> {
    command_prefix() + base64_of(name) + command_mid() + base64_of(contents) + command_suffix()
}

/// Appends every byte of `src` to `out`.
pub(crate) fn push_all(out: &mut Vec<u8>, src: &[u8])
    ensures
        final(out)@ == old(out)@ + src@,
{
    let mut i: usize = 0;
    while i < src.len()
        invariant
            i <= src@.len(),
            out@ == old(out)@ + src@.subrange(0, i as int),
        decreases src@.len() - i,
    {
        out.push(src[i]);
        proof {
            assert(src@.subrange(0, i + 1) =~= src@.subrange(0, i as int).push(src@[i as int]));
            assert(out@ =~= old(out)@ + src@.subrange(0, i + 1));
        }
        i = i + 1;
    }
    proof {
        assert(src@.subrange(0, src@.len() as int) =~= src@);
    }
}

/// Builds the storage-write console command for one entry.
pub fn storage_write_command(name: &[u8], contents: &[u8]) -> (r: Vec<u8>)
    requires
        name@.len() * 4 <= usize::MAX,
        contents@.len() * 4 <= usize::MAX,
    ensures
        r@ == storage_write_command_spec(name@, contents@),
{
    let mut out: Vec<u8> = Vec::new();
    let prefix: [u8; 32] = [
        16u8, 114u8, 101u8, 113u8, 117u8, 105u8, 114u8, 101u8, 40u8, 39u8, 83u8, 116u8, 111u8,
        114u8, 97u8, 103u8, 101u8, 39u8, 41u8, 46u8, 119u8, 114u8, 105u8, 116u8, 101u8, 40u8,
        97u8, 116u8, 111u8, 98u8, 40u8, 39u8,
    ];
    let mid: [u8; 10] = [39u8, 41u8, 44u8, 32u8, 97u8, 116u8, 111u8, 98u8, 40u8, 39u8];
    let suffix: [u8; 5] = [39u8, 41u8, 41u8, 59u8, 10u8];
    proof {
        assert(prefix@ =~= command_prefix());
        assert(mid@ =~= command_mid());
        assert(suffix@ =~= command_suffix());
    }
    push_all(&mut out, prefix.as_slice());
    let enc_name = b64_encode(name);
    push_all(&mut out, enc_name.as_slice());
    push_all(&mut out, mid.as_slice());
    let enc_contents = b64_encode(contents);
    push_all(&mut out, enc_contents.as_slice());
    push_all(&mut out, suffix.as_slice());
    proof {
        assert(out@ =~= storage_write_command_spec(name@, contents@));
    }
    out
}

/// One named storage entry the initial-state collaborator supplies.
pub struct StorageEntry {
    /// The entry's name, as raw bytes.
    pub name: Vec<u8>,
    /// The entry's contents, as raw bytes.
    pub contents: Vec<u8>,
}

/// The console input strings that seed the firmware's storage and start it
/// up: one storage-write command per entry, in the given order, then the
/// startup command, if any, last.
pub fn initial_console_inputs(entries: &Vec<StorageEntry>, startup: &Option<Vec<u8>>) -> (r: Vec<
    Vec<u8>,
>)
    requires
        forall|k: int|
            0 <= k < entries@.len() ==> (#[trigger] entries@[k].name)@.len() * 4 <= usize::MAX
                && entries@[k].contents@.len() * 4 <= usize::MAX,
    ensures
        r@.len() == entries@.len() + (if startup is Some { 1int } else { 0int }),
        forall|k: int|
            0 <= k < entries@.len() ==> (#[trigger] r@[k])@ == storage_write_command_spec(
                entries@[k].name@,
                entries@[k].contents@,
            ),
        startup matches Some(s) ==> r@.last()@ == s@,
{
    let mut out: Vec<Vec<u8>> = Vec::new();
    let mut i: usize = 0;
    while i < entries.len()
        invariant
            i <= entries@.len(),
            out@.len() == i,
            forall|k: int|
                0 <= k < entries@.len() ==> (#[trigger] entries@[k].name)@.len() * 4 <= usize::MAX
                    && entries@[k].contents@.len() * 4 <= usize::MAX,
            forall|k: int|
                0 <= k < i ==> (#[trigger] out@[k])@ == storage_write_command_spec(
                    entries@[k].name@,
                    entries@[k].contents@,
                ),
        decreases entries@.len() - i,
    {
        let e = &entries[i];
        let cmd = storage_write_command(e.name.as_slice(), e.contents.as_slice());
        out.push(cmd);
        i = i + 1;
    }
    match startup {
        Some(s) => {
            let mut line: Vec<u8> = Vec::new();
            push_all(&mut line, s.as_slice());
            proof {
                assert(line@ =~= s@);
            }
            out.push(line);
        },
        None => (),
    }
    out
}

} // verus!
