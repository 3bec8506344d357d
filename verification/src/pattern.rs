//! The pattern of a cluster, and the cutting of DNA by it.
//!
//! A pattern is text that lists slice descriptors, separated by `,`. A
//! descriptor is `offset:width` or `offset:width:transform`: two decimal
//! numbers that fit in a byte, and the name of the transform by which the
//! decoder is to read the slice, made of letters, digits and `_`. The empty
//! text is the pattern without descriptors.

use crate::bytes::copy_range;
use crate::error::Error;
use crate::text::{chars_of, piece_ranges, pieces, read_small_number, small_number};
use vstd::prelude::*;

verus! {

/// One descriptor of a pattern: where a slice of the DNA begins, how many
/// bytes it holds, and the transform that it names.
#[derive(Debug, Clone, PartialEq, Eq)]
pub struct TraitSlice {
    pub offset: u8,
    pub width: u8,
    pub transform: Option<String>,
}

/// What a `TraitSlice` stands for.
pub struct TraitSliceModel {
    pub offset: int,
    pub width: int,
    pub transform: Option<Seq<char>>,
}

/// One slice of the DNA, with the transform that its descriptor names.
#[derive(Debug, Clone, PartialEq, Eq)]
pub struct ExtractedTrait {
    pub transform: Option<String>,
    pub value: Vec<u8>,
}

/// What an `ExtractedTrait` stands for.
pub struct ExtractedTraitModel {
    pub transform: Option<Seq<char>>,
    pub value: Seq<u8>,
}

/// The slices that a pattern cuts out of DNA, in the order of its
/// descriptors.
#[derive(Debug, Clone, PartialEq, Eq)]
pub struct ExtractedTraits {
    pub traits: Vec<ExtractedTrait>,
}

/// The characters of a text that may be absent.
pub open spec fn optional_text(text: Option<String>) -> Option<Seq<char>> {
    match text {
        Some(text) => Some(text@),
        None => None,
    }
}

impl View for TraitSlice {
    type V = TraitSliceModel;

    open spec fn view(&self) -> TraitSliceModel {
        TraitSliceModel {
            offset: self.offset as int,
            width: self.width as int,
            transform: optional_text(self.transform),
        }
    }
}

impl View for ExtractedTrait {
    type V = ExtractedTraitModel;

    open spec fn view(&self) -> ExtractedTraitModel {
        ExtractedTraitModel { transform: optional_text(self.transform), value: self.value@ }
    }
}

impl View for ExtractedTraits {
    type V = Seq<ExtractedTraitModel>;

    open spec fn view(&self) -> Seq<ExtractedTraitModel> {
        Seq::new(self.traits@.len(), |i: int| self.traits@[i]@)
    }
}

/// Whether `c` may stand in the name of a transform.
pub open spec fn is_name_char(c: char) -> bool {
    ('0' <= c && c <= '9') || ('a' <= c && c <= 'z') || ('A' <= c && c <= 'Z') || c == '_'
}

/// Whether `text` is the name of a transform: not empty, and made of letters,
/// digits and `_`.
pub open spec fn is_name(text: Seq<char>) -> bool {
    &&& text.len() > 0
    &&& forall|i: int| 0 <= i < text.len() ==> is_name_char(#[trigger] text[i])
}

/// The descriptor that `text` spells, if it spells one.
pub open spec fn descriptor_of(text: Seq<char>) -> Option<TraitSliceModel> {
    let fields = pieces(text, ':');
    if (fields.len() == 2 || fields.len() == 3) && small_number(fields[0]) is Some && small_number(
        fields[1],
    ) is Some && (fields.len() == 3 ==> is_name(fields[2])) {
        Some(
            TraitSliceModel {
                offset: small_number(fields[0])->0 as int,
                width: small_number(fields[1])->0 as int,
                transform: if fields.len() == 3 {
                    Some(fields[2])
                } else {
                    None
                },
            },
        )
    } else {
        None
    }
}

/// The descriptors that `pattern` lists, if every part of it spells one.
pub open spec fn descriptors_of(pattern: Seq<char>) -> Option<Seq<TraitSliceModel>> {
    let parts = pieces(pattern, ',');
    if pattern.len() == 0 {
        Some(Seq::empty())
    } else if forall|i: int| 0 <= i < parts.len() ==> descriptor_of(#[trigger] parts[i]) is Some {
        Some(Seq::new(parts.len(), |i: int| descriptor_of(parts[i])->0))
    } else {
        None
    }
}

/// Whether `pattern` lists descriptors, each of a slice that lies within DNA
/// of `dna_len` bytes.
pub open spec fn pattern_fits(pattern: Seq<char>, dna_len: int) -> bool {
    &&& descriptors_of(pattern) is Some
    &&& forall|i: int|
        0 <= i < descriptors_of(pattern)->0.len() ==> {
            let slice = #[trigger] descriptors_of(pattern)->0[i];
            slice.offset + slice.width <= dna_len
        }
}

/// The slice of `dna` that `slice` describes.
pub open spec fn trait_of(dna: Seq<u8>, slice: TraitSliceModel) -> ExtractedTraitModel {
    ExtractedTraitModel {
        transform: slice.transform,
        value: dna.subrange(slice.offset, slice.offset + slice.width),
    }
}

/// What `extract` answers: the slices in the order of their descriptors, or
/// the failure.
pub open spec fn extracted(dna: Seq<u8>, pattern: Seq<char>, dna_len: u8) -> Result<
    Seq<ExtractedTraitModel>,
    Error,
> {
    if dna.len() != dna_len {
        Err(Error::DnaLengthNotMatch)
    } else if !pattern_fits(pattern, dna_len as int) {
        Err(Error::DOBMetadataUnexpected)
    } else {
        let slices = descriptors_of(pattern)->0;
        Ok(Seq::new(slices.len(), |i: int| trait_of(dna, slices[i])))
    }
}

/// Whether `chars[from..to]` is the name of a transform.
fn reads_name(chars: &Vec<char>, from: usize, to: usize) -> (named: bool)
    requires
        from <= to <= chars.len(),
    ensures
        named == is_name(chars@.subrange(from as int, to as int)),
{
    let ghost whole = chars@.subrange(from as int, to as int);
    if from == to {
        return false;
    }
    let mut i: usize = from;
    while i < to
        invariant
            from <= i <= to <= chars.len(),
            whole == chars@.subrange(from as int, to as int),
            forall|k: int| from <= k < i ==> is_name_char(chars@[k]),
        decreases to - i,
    {
        let c = chars[i];
        let fine = ('0' <= c && c <= '9') || ('a' <= c && c <= 'z') || ('A' <= c && c <= 'Z') || c
            == '_';
        if !fine {
            assert(whole[i - from] == c);
            return false;
        }
        i += 1;
    }
    assert forall|k: int| 0 <= k < whole.len() implies is_name_char(#[trigger] whole[k]) by {
        assert(whole[k] == chars@[from + k]);
    }
    true
}

/// Reads the descriptor that `chars[from..to]` spells; `chars` holds the
/// characters of `pattern`.
fn read_descriptor(pattern: &str, chars: &Vec<char>, from: usize, to: usize) -> (slice: Option<
    TraitSlice,
>)
    requires
        chars@ == pattern@,
        from <= to <= chars.len(),
    ensures
        match slice {
            Some(slice) => descriptor_of(chars@.subrange(from as int, to as int)) == Some(slice@),
            None => descriptor_of(chars@.subrange(from as int, to as int)) is None,
        },
{
    let ghost fields = pieces(chars@.subrange(from as int, to as int), ':');
    let ranges = piece_ranges(chars, from, to, ':');
    if ranges.len() != 2 && ranges.len() != 3 {
        return None;
    }
    assert(fields[0] == chars@.subrange(ranges@[0].0 as int, ranges@[0].1 as int));
    assert(fields[1] == chars@.subrange(ranges@[1].0 as int, ranges@[1].1 as int));
    let offset = read_small_number(chars, ranges[0].0, ranges[0].1);
    let width = read_small_number(chars, ranges[1].0, ranges[1].1);
    match (offset, width) {
        (Some(offset), Some(width)) => {
            if ranges.len() == 3 {
                assert(fields[2] == chars@.subrange(ranges@[2].0 as int, ranges@[2].1 as int));
                if !reads_name(chars, ranges[2].0, ranges[2].1) {
                    return None;
                }
                let name = pattern.substring_char(ranges[2].0, ranges[2].1).to_owned();
                Some(TraitSlice { offset, width, transform: Some(name) })
            } else {
                Some(TraitSlice { offset, width, transform: None })
            }
        },
        _ => None,
    }
}

/// Reads the descriptors that `pattern` lists, or `None` where a part of it
/// spells none.
pub fn parse_pattern(pattern: &str) -> (slices: Option<Vec<TraitSlice>>)
    ensures
        match slices {
            Some(slices) => descriptors_of(pattern@) == Some(
                Seq::new(slices@.len(), |i: int| slices@[i]@),
            ),
            None => descriptors_of(pattern@) is None,
        },
{
    let chars = chars_of(pattern);
    let mut slices: Vec<TraitSlice> = Vec::new();
    if chars.len() == 0 {
        assert(Seq::new(slices@.len(), |i: int| slices@[i]@) =~= Seq::<TraitSliceModel>::empty());
        return Some(slices);
    }
    assert(chars@.subrange(0, chars.len() as int) =~= pattern@);
    let ghost parts = pieces(pattern@, ',');
    let ranges = piece_ranges(&chars, 0, chars.len(), ',');
    let mut i: usize = 0;
    while i < ranges.len()
        invariant
            chars@ == pattern@,
            pattern@.len() > 0,
            parts == pieces(pattern@, ','),
            ranges@.len() == parts.len(),
            i <= ranges.len(),
            forall|k: int|
                0 <= k < ranges@.len() ==> (#[trigger] ranges@[k]).0 <= ranges@[k].1
                    <= chars.len(),
            forall|k: int|
                0 <= k < ranges@.len() ==> chars@.subrange(
                    (#[trigger] ranges@[k]).0 as int,
                    ranges@[k].1 as int,
                ) == parts[k],
            slices@.len() == i,
            forall|k: int| 0 <= k < i ==> descriptor_of(parts[k]) == Some(#[trigger] slices@[k]@),
        decreases ranges.len() - i,
    {
        assert(chars@.subrange(ranges@[i as int].0 as int, ranges@[i as int].1 as int) == parts[i as int]);
        match read_descriptor(pattern, &chars, ranges[i].0, ranges[i].1) {
            Some(slice) => {
                slices.push(slice);
            },
            None => {
                assert(descriptor_of(parts[i as int]) is None);
                return None;
            },
        }
        i += 1;
    }
    assert forall|k: int| 0 <= k < parts.len() implies descriptor_of(
        #[trigger] parts[k],
    ) is Some by {
        assert(descriptor_of(parts[k]) == Some(slices@[k]@));
    }
    assert(Seq::new(slices@.len(), |i: int| slices@[i]@) =~= Seq::new(
        parts.len(),
        |i: int| descriptor_of(parts[i])->0,
    ));
    Some(slices)
}

/// Whether `pattern` lists descriptors, each of a slice that lies within DNA
/// of `dna_len` bytes.
pub fn fits(pattern: &str, dna_len: u8) -> (fitting: bool)
    ensures
        fitting == pattern_fits(pattern@, dna_len as int),
{
    let slices = match parse_pattern(pattern) {
        Some(slices) => slices,
        None => {
            return false;
        },
    };
    let ghost models = descriptors_of(pattern@)->0;
    let mut i: usize = 0;
    while i < slices.len()
        invariant
            descriptors_of(pattern@) == Some(models),
            models == Seq::new(slices@.len(), |i: int| slices@[i]@),
            i <= slices.len(),
            forall|k: int| 0 <= k < i ==> models[k].offset + models[k].width <= dna_len,
        decreases slices.len() - i,
    {
        assert(models[i as int] == slices@[i as int]@);
        if slices[i].offset as usize + slices[i].width as usize > dna_len as usize {
            return false;
        }
        i += 1;
    }
    true
}

/// Cuts `dna` by `pattern`: one slice for each descriptor, in their order.
///
/// DNA of any other length than `dna_len` fails with `DnaLengthNotMatch`,
/// whatever the pattern. Otherwise a pattern with a part that spells no
/// descriptor, or with a descriptor of a slice that does not lie within the
/// DNA, fails with `DOBMetadataUnexpected`.
pub fn extract(dna: &[u8], pattern: &str, dna_len: u8) -> (traits: Result<ExtractedTraits, Error>)
    ensures
        match traits {
            Ok(traits) => extracted(dna@, pattern@, dna_len) == Ok::<
                Seq<ExtractedTraitModel>,
                Error,
            >(traits@),
            Err(error) => extracted(dna@, pattern@, dna_len) == Err::<
                Seq<ExtractedTraitModel>,
                Error,
            >(error),
        },
        (traits matches Err(error) && error == Error::DnaLengthNotMatch) <==> dna@.len()
            != dna_len,
{
    if dna.len() != dna_len as usize {
        return Err(Error::DnaLengthNotMatch);
    }
    let slices = match parse_pattern(pattern) {
        Some(slices) => slices,
        None => {
            return Err(Error::DOBMetadataUnexpected);
        },
    };
    let ghost models = descriptors_of(pattern@)->0;
    let mut traits: Vec<ExtractedTrait> = Vec::new();
    let mut i: usize = 0;
    while i < slices.len()
        invariant
            dna@.len() == dna_len,
            descriptors_of(pattern@) == Some(models),
            models == Seq::new(slices@.len(), |i: int| slices@[i]@),
            i <= slices.len(),
            traits@.len() == i,
            forall|k: int| 0 <= k < i ==> models[k].offset + models[k].width <= dna_len,
            forall|k: int| 0 <= k < i ==> (#[trigger] traits@[k])@ == trait_of(dna@, models[k]),
        decreases slices.len() - i,
    {
        let slice = &slices[i];
        assert(models[i as int] == slice@);
        let from = slice.offset as usize;
        let to = from + slice.width as usize;
        if to > dna.len() {
            return Err(Error::DOBMetadataUnexpected);
        }
        let transform = match &slice.transform {
            Some(name) => Some(name.clone()),
            None => None,
        };
        traits.push(ExtractedTrait { transform, value: copy_range(dna, from, to) });
        i += 1;
    }
    let traits = ExtractedTraits { traits };
    assert(traits@ =~= Seq::new(models.len(), |i: int| trait_of(dna@, models[i])));
    Ok(traits)
}

/// Cutting fails with `DnaLengthNotMatch` on DNA that is not as long as the
/// cluster declares, whatever the pattern, and on no other DNA.
pub proof fn lemma_length_failure(dna: Seq<u8>, pattern: Seq<char>, dna_len: u8)
    ensures
        extracted(dna, pattern, dna_len) == Err::<Seq<ExtractedTraitModel>, Error>(
            Error::DnaLengthNotMatch,
        ) <==> dna.len() != dna_len,
{
}

/// Cutting depends on the DNA, the pattern and the declared length alone,
/// and where it succeeds it cuts one slice for each descriptor.
pub proof fn lemma_one_slice_for_each_descriptor(dna: Seq<u8>, pattern: Seq<char>, dna_len: u8)
    requires
        extracted(dna, pattern, dna_len) is Ok,
    ensures
        descriptors_of(pattern) is Some,
        extracted(dna, pattern, dna_len)->Ok_0.len() == descriptors_of(pattern)->0.len(),
        forall|i: int|
            0 <= i < descriptors_of(pattern)->0.len() ==> {
                let slice = descriptors_of(pattern)->0[i];
                let cut = #[trigger] extracted(dna, pattern, dna_len)->Ok_0[i];
                &&& cut.transform == slice.transform
                &&& cut.value.len() == slice.width
                &&& cut.value == dna.subrange(slice.offset, slice.offset + slice.width)
            },
{
    let slices = descriptors_of(pattern)->0;
    assert forall|i: int| 0 <= i < slices.len() implies {
        let slice = slices[i];
        let cut = #[trigger] extracted(dna, pattern, dna_len)->Ok_0[i];
        &&& cut.transform == slice.transform
        &&& cut.value.len() == slice.width
        &&& cut.value == dna.subrange(slice.offset, slice.offset + slice.width)
    } by {
        let slice = slices[i];
        assert(slice.offset + slice.width <= dna_len);
        assert(slice == Seq::new(slices.len(), |k: int| slices[k])[i]);
    }
}

} // verus!
