//! The benchmark's stimulus and response files: 32-bit float mono WAV, laid
//! out by hand so that a program that has never seen this repository can
//! read them with nothing but the format's description.
//!
//! A sample is carried here as the bit pattern of its single-precision value,
//! which is exactly what the file stores; converting a sample to its bits is
//! the caller's business.

use vstd::bytes::{
    lemma_auto_spec_u16_to_from_le_bytes, lemma_auto_spec_u32_to_from_le_bytes, spec_u16_from_le_bytes,
    spec_u16_to_le_bytes, spec_u32_from_le_bytes, spec_u32_to_le_bytes, u16_to_le_bytes, u32_to_le_bytes,
};
use vstd::prelude::*;

verus! {

/// The four-byte tag that opens a RIFF file.
pub open spec fn riff_tag() -> Seq<u8> {
    seq![0x52u8, 0x49u8, 0x46u8, 0x46u8]
}

/// `WAVE` followed by the format chunk's tag, `fmt `.
pub open spec fn wave_fmt_tag() -> Seq<u8> {
    seq![0x57u8, 0x41u8, 0x56u8, 0x45u8, 0x66u8, 0x6du8, 0x74u8, 0x20u8]
}

/// The data chunk's tag, `data`.
pub open spec fn data_tag() -> Seq<u8> {
    seq![0x64u8, 0x61u8, 0x74u8, 0x61u8]
}

/// The format code for IEEE floating point.
pub const IEEE_FLOAT: u16 = 3;

/// The 44-byte header of a mono 32-bit float file at `sample_rate` whose
/// sample data is `payload` bytes long.
pub open spec fn wav_header(sample_rate: u32, payload: u32) -> Seq<u8> {
    riff_tag() + spec_u32_to_le_bytes((36 + payload) as u32) + wave_fmt_tag()
        + spec_u32_to_le_bytes(16) + spec_u16_to_le_bytes(IEEE_FLOAT) + spec_u16_to_le_bytes(1)
        + spec_u32_to_le_bytes(sample_rate) + spec_u32_to_le_bytes((sample_rate * 4) as u32)
        + spec_u16_to_le_bytes(4) + spec_u16_to_le_bytes(32) + data_tag()
        + spec_u32_to_le_bytes(payload)
}

/// The samples, each as its four little-endian bytes, in order.
pub open spec fn sample_bytes(samples: Seq<u32>) -> Seq<u8>
    decreases samples.len(),
{
    if samples.len() == 0 {
        Seq::empty()
    } else {
        sample_bytes(samples.drop_last()) + spec_u32_to_le_bytes(samples.last())
    }
}

/// The whole file: the header, then the samples.
pub open spec fn wav_file(sample_rate: u32, samples: Seq<u32>) -> Seq<u8> {
    wav_header(sample_rate, (samples.len() * 4) as u32) + sample_bytes(samples)
}

proof fn lemma_sample_bytes_are_each_sample(samples: Seq<u32>)
    ensures
        sample_bytes(samples).len() == 4 * samples.len(),
        forall|i: int|
            0 <= i < samples.len() ==> #[trigger] sample_bytes(samples).subrange(4 * i, 4 * i + 4)
                == spec_u32_to_le_bytes(samples[i]),
    decreases samples.len(),
{
    lemma_auto_spec_u32_to_from_le_bytes();
    if samples.len() > 0 {
        let init = samples.drop_last();
        lemma_sample_bytes_are_each_sample(init);
        let b = sample_bytes(samples);
        let b0 = sample_bytes(init);
        assert forall|i: int| 0 <= i < samples.len() implies #[trigger] b.subrange(4 * i, 4 * i + 4)
            == spec_u32_to_le_bytes(samples[i]) by {
            if i < init.len() {
                assert(b.subrange(4 * i, 4 * i + 4) =~= b0.subrange(4 * i, 4 * i + 4));
                assert(init[i] == samples[i]);
            } else {
                assert(b.subrange(4 * i, 4 * i + 4) =~= spec_u32_to_le_bytes(samples.last()));
            }
        }
    }
}

/// **The file reads back as what was written**: it is the 44-byte header
/// and four bytes a sample; its tags are `RIFF`, `WAVEfmt ` and `data`; its
/// size fields, read as little-endian integers, are the rest of the file and
/// the sample data; its format reads as IEEE float, one channel, the given
/// rate, four bytes a frame and 32 bits a sample; and sample `i`, read back
/// from bytes `44 + 4i` on, is `samples[i]`.
#[verifier::rlimit(50)]
pub proof fn lemma_wav_reads_back(sample_rate: u32, samples: Seq<u32>)
    requires
        samples.len() * 4 + 36 <= u32::MAX,
        sample_rate * 4 <= u32::MAX,
    ensures
        ({
            let f = wav_file(sample_rate, samples);
            let n = samples.len() as int;
            &&& f.len() == 44 + 4 * n
            &&& f.subrange(0, 4) == seq![0x52u8, 0x49u8, 0x46u8, 0x46u8]
            &&& spec_u32_from_le_bytes(f.subrange(4, 8)) == 36 + 4 * n
            &&& f.subrange(8, 16) == seq![0x57u8, 0x41u8, 0x56u8, 0x45u8, 0x66u8, 0x6du8, 0x74u8, 0x20u8]
            &&& spec_u32_from_le_bytes(f.subrange(16, 20)) == 16
            &&& spec_u16_from_le_bytes(f.subrange(20, 22)) == 3
            &&& spec_u16_from_le_bytes(f.subrange(22, 24)) == 1
            &&& spec_u32_from_le_bytes(f.subrange(24, 28)) == sample_rate
            &&& spec_u32_from_le_bytes(f.subrange(28, 32)) == sample_rate * 4
            &&& spec_u16_from_le_bytes(f.subrange(32, 34)) == 4
            &&& spec_u16_from_le_bytes(f.subrange(34, 36)) == 32
            &&& f.subrange(36, 40) == seq![0x64u8, 0x61u8, 0x74u8, 0x61u8]
            &&& spec_u32_from_le_bytes(f.subrange(40, 44)) == 4 * n
            &&& forall|i: int|
                0 <= i < n ==> spec_u32_from_le_bytes(#[trigger] f.subrange(44 + 4 * i, 48 + 4 * i))
                    == samples[i]
        }),
{
    lemma_auto_spec_u32_to_from_le_bytes();
    lemma_auto_spec_u16_to_from_le_bytes();
    lemma_sample_bytes_are_each_sample(samples);
    let n = samples.len() as int;
    let payload = (samples.len() * 4) as u32;
    let h = wav_header(sample_rate, payload);
    let sb = sample_bytes(samples);
    let f = wav_file(sample_rate, samples);
    assert(h.len() == 44);
    assert(f == h + sb);
    assert(f.subrange(0, 4) =~= riff_tag());
    assert(f.subrange(4, 8) =~= spec_u32_to_le_bytes((36 + payload) as u32));
    assert(f.subrange(8, 16) =~= wave_fmt_tag());
    assert(f.subrange(16, 20) =~= spec_u32_to_le_bytes(16));
    assert(f.subrange(20, 22) =~= spec_u16_to_le_bytes(IEEE_FLOAT));
    assert(f.subrange(22, 24) =~= spec_u16_to_le_bytes(1));
    assert(f.subrange(24, 28) =~= spec_u32_to_le_bytes(sample_rate));
    assert(f.subrange(28, 32) =~= spec_u32_to_le_bytes((sample_rate * 4) as u32));
    assert(f.subrange(32, 34) =~= spec_u16_to_le_bytes(4));
    assert(f.subrange(34, 36) =~= spec_u16_to_le_bytes(32));
    assert(f.subrange(36, 40) =~= data_tag());
    assert(f.subrange(40, 44) =~= spec_u32_to_le_bytes(payload));
    assert forall|i: int| 0 <= i < n implies spec_u32_from_le_bytes(
        #[trigger] f.subrange(44 + 4 * i, 48 + 4 * i),
    ) == samples[i] by {
        assert(f.subrange(44 + 4 * i, 48 + 4 * i) =~= sb.subrange(4 * i, 4 * i + 4));
    }
}

fn push_all(b: &mut Vec<u8>, mut more: Vec<u8>)
    ensures
        final(b)@ == old(b)@ + more@,
{
    b.append(&mut more);
}

/// The bytes of a mono 32-bit float WAV file at `sample_rate` holding
/// `samples`, each given as its bit pattern. The format's size fields are
/// 32 bits wide, which bounds how long a file can be.
pub fn wav_bytes(sample_rate: u32, samples: &[u32]) -> (b: Vec<u8>)
    requires
        samples@.len() * 4 + 36 <= u32::MAX,
        sample_rate * 4 <= u32::MAX,
    ensures
        b@ == wav_file(sample_rate, samples@),
{
    let n = samples.len();
    let payload = (n * 4) as u32;
    let mut b: Vec<u8> = Vec::new();
    b.push(0x52);
    b.push(0x49);
    b.push(0x46);
    b.push(0x46);
    push_all(&mut b, u32_to_le_bytes(36 + payload));
    b.push(0x57);
    b.push(0x41);
    b.push(0x56);
    b.push(0x45);
    b.push(0x66);
    b.push(0x6d);
    b.push(0x74);
    b.push(0x20);
    push_all(&mut b, u32_to_le_bytes(16));
    push_all(&mut b, u16_to_le_bytes(IEEE_FLOAT));
    push_all(&mut b, u16_to_le_bytes(1));
    push_all(&mut b, u32_to_le_bytes(sample_rate));
    push_all(&mut b, u32_to_le_bytes(sample_rate * 4));
    push_all(&mut b, u16_to_le_bytes(4));
    push_all(&mut b, u16_to_le_bytes(32));
    b.push(0x64);
    b.push(0x61);
    b.push(0x74);
    b.push(0x61);
    push_all(&mut b, u32_to_le_bytes(payload));
    assert(b@ =~= wav_header(sample_rate, payload));
    let ghost header = b@;
    let mut i: usize = 0;
    while i < n
        invariant
            n == samples@.len(),
            i <= n,
            b@ == header + sample_bytes(samples@.subrange(0, i as int)),
        decreases n - i,
    {
        proof {
            assert(samples@.subrange(0, i + 1).drop_last() =~= samples@.subrange(0, i as int));
        }
        push_all(&mut b, u32_to_le_bytes(samples[i]));
        proof {
            assert(b@ =~= header + sample_bytes(samples@.subrange(0, i + 1)));
        }
        i = i + 1;
    }
    proof {
        assert(samples@.subrange(0, n as int) =~= samples@);
    }
    b
}

} // verus!
