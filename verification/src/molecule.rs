//! The layout of cell data.
//!
//! Numbers are 32 bits wide, the low byte first. A byte string is the number
//! of its bytes, then the bytes. A table is its own length in bytes, then for
//! each field the place where the field begins, then the fields one after
//! another; the first of these places is therefore also the length of the
//! header, and tells how many fields there are. An optional field is either
//! empty or holds its value. A reader takes the fields it knows from the
//! front of a table and passes over any further ones.

use crate::bytes::copy_range;
use vstd::prelude::*;

verus! {

/// The number that the four bytes of `data` from place `at` on spell.
pub open spec fn number_at(data: Seq<u8>, at: int) -> int {
    data[at] as int + 256 * (data[at + 1] as int) + 65536 * (data[at + 2] as int) + 16777216 * (
    data[at + 3] as int)
}

/// The bytes of the byte string that `data` is, if it is one.
pub open spec fn byte_string(data: Seq<u8>) -> Option<Seq<u8>> {
    if data.len() >= 4 && number_at(data, 0) == data.len() - 4 {
        Some(data.skip(4))
    } else {
        None
    }
}

/// The bytes of the optional byte string that `data` is, if it is one:
/// `Some(None)` for the empty field.
pub open spec fn optional_byte_string(data: Seq<u8>) -> Option<Option<Seq<u8>>> {
    if data.len() == 0 {
        Some(None)
    } else if byte_string(data) is Some {
        Some(byte_string(data))
    } else {
        None
    }
}

/// How many fields the header of the table `data` announces.
pub open spec fn field_count(data: Seq<u8>) -> int {
    number_at(data, 4) / 4 - 1
}

/// Where field `i` of the table `data` begins.
pub open spec fn field_start(data: Seq<u8>, i: int) -> int {
    number_at(data, 4 + 4 * i)
}

/// Where field `i` of the table `data` ends: where the next one begins, or,
/// for the last one, at the end of the table.
pub open spec fn field_end(data: Seq<u8>, i: int) -> int {
    if i + 1 < field_count(data) {
        field_start(data, i + 1)
    } else {
        data.len() as int
    }
}

/// Whether `data` is a table of one field or more: it is as long as it says,
/// its header is a whole number of places and lies within it, and no field
/// ends before it begins.
pub open spec fn is_table(data: Seq<u8>) -> bool {
    &&& data.len() >= 8
    &&& number_at(data, 0) == data.len()
    &&& number_at(data, 4) % 4 == 0
    &&& 8 <= number_at(data, 4) <= data.len()
    &&& forall|i: int|
        0 <= i < field_count(data) ==> #[trigger] field_start(data, i) <= field_end(data, i)
}

/// The bytes of field `i` of the table `data`.
pub open spec fn field(data: Seq<u8>, i: int) -> Seq<u8> {
    data.subrange(field_start(data, i), field_end(data, i))
}

/// What the data of an object's cell holds.
pub struct SporeDataModel {
    pub content_type: Seq<u8>,
    pub content: Seq<u8>,
    pub cluster_id: Option<Seq<u8>>,
}

/// What the data of a cluster's cell holds.
pub struct ClusterDataModel {
    pub name: Seq<u8>,
    pub description: Seq<u8>,
}

/// The data of an object's cell: the tag of the content's type, the content,
/// and the identifier of the cluster that the object declares, if it
/// declares one.
#[derive(Debug, Clone, PartialEq, Eq)]
pub struct SporeData {
    pub content_type: Vec<u8>,
    pub content: Vec<u8>,
    pub cluster_id: Option<Vec<u8>>,
}

/// The data of a cluster's cell: its name and its description.
#[derive(Debug, Clone, PartialEq, Eq)]
pub struct ClusterData {
    pub name: Vec<u8>,
    pub description: Vec<u8>,
}

/// The bytes of a byte string that may be absent.
pub open spec fn optional_bytes(bytes: Option<Vec<u8>>) -> Option<Seq<u8>> {
    match bytes {
        Some(bytes) => Some(bytes@),
        None => None,
    }
}

impl View for SporeData {
    type V = SporeDataModel;

    open spec fn view(&self) -> SporeDataModel {
        SporeDataModel {
            content_type: self.content_type@,
            content: self.content@,
            cluster_id: optional_bytes(self.cluster_id),
        }
    }
}

impl View for ClusterData {
    type V = ClusterDataModel;

    open spec fn view(&self) -> ClusterDataModel {
        ClusterDataModel { name: self.name@, description: self.description@ }
    }
}

/// What `data` holds, read as the data of an object's cell: a table of three
/// fields or more, of which the first two are byte strings and the third is
/// an optional byte string.
pub open spec fn spore_data_of(data: Seq<u8>) -> Option<SporeDataModel> {
    if is_table(data) && field_count(data) >= 3 && byte_string(field(data, 0)) is Some
        && byte_string(field(data, 1)) is Some && optional_byte_string(field(data, 2)) is Some {
        Some(
            SporeDataModel {
                content_type: byte_string(field(data, 0))->0,
                content: byte_string(field(data, 1))->0,
                cluster_id: optional_byte_string(field(data, 2))->0,
            },
        )
    } else {
        None
    }
}

/// What `data` holds, read as the data of a cluster's cell: a table of two
/// fields or more, of which the first two are byte strings.
pub open spec fn cluster_data_of(data: Seq<u8>) -> Option<ClusterDataModel> {
    if is_table(data) && field_count(data) >= 2 && byte_string(field(data, 0)) is Some
        && byte_string(field(data, 1)) is Some {
        Some(
            ClusterDataModel {
                name: byte_string(field(data, 0))->0,
                description: byte_string(field(data, 1))->0,
            },
        )
    } else {
        None
    }
}

/// The number that the four bytes of `data` from place `at` on spell.
pub fn read_number(data: &[u8], at: usize) -> (number: u32)
    requires
        at + 4 <= data@.len(),
    ensures
        number == number_at(data@, at as int),
{
    let b0 = data[at] as u32;
    let b1 = data[at + 1] as u32;
    let b2 = data[at + 2] as u32;
    let b3 = data[at + 3] as u32;
    b0 + 256 * b1 + 65536 * b2 + 16777216 * b3
}

/// The ranges of the fields of the table `data`, or `None` where `data` is
/// no table.
pub fn read_table(data: &[u8]) -> (ranges: Option<Vec<(usize, usize)>>)
    ensures
        ranges is Some <==> is_table(data@),
        ranges is Some ==> ranges->0@.len() == field_count(data@),
        ranges is Some ==> forall|i: int|
            0 <= i < field_count(data@) ==> {
                &&& (#[trigger] ranges->0@[i]).0 == field_start(data@, i)
                &&& ranges->0@[i].1 == field_end(data@, i)
                &&& ranges->0@[i].0 <= ranges->0@[i].1 <= data@.len()
            },
{
    let len = data.len();
    if len < 8 || len > 0xffff_ffff {
        return None;
    }
    if read_number(data, 0) as usize != len {
        return None;
    }
    let header = read_number(data, 4) as usize;
    if header % 4 != 0 || header < 8 || header > len {
        return None;
    }
    let count: usize = header / 4 - 1;
    let mut ranges: Vec<(usize, usize)> = Vec::new();
    let mut k: usize = 0;
    while k < count
        invariant
            k <= count,
            ranges@.len() == k,
        decreases count - k,
    {
        ranges.push((0, 0));
        k += 1;
    }
    let mut i: usize = count;
    let mut bound: usize = len;
    while i > 0
        invariant
            len == data@.len(),
            number_at(data@, 0) == len,
            8 <= header <= len,
            header == number_at(data@, 4),
            header % 4 == 0,
            count == field_count(data@),
            i <= count,
            ranges@.len() == count,
            bound <= len,
            i < count ==> bound == field_start(data@, i as int),
            i == count ==> bound == len,
            forall|j: int|
                i <= j < count ==> {
                    &&& (#[trigger] ranges@[j]).0 == field_start(data@, j)
                    &&& ranges@[j].1 == field_end(data@, j)
                    &&& ranges@[j].0 <= ranges@[j].1 <= len
                },
        decreases i,
    {
        let start = read_number(data, 4 + 4 * (i - 1)) as usize;
        if start > bound {
            assert(field_start(data@, i - 1) > field_end(data@, i - 1));
            return None;
        }
        ranges.set(i - 1, (start, bound));
        bound = start;
        i -= 1;
    }
    assert forall|j: int| 0 <= j < field_count(data@) implies #[trigger] field_start(data@, j)
        <= field_end(data@, j) by {
        assert(ranges@[j].0 <= ranges@[j].1);
    }
    Some(ranges)
}

/// The bytes of the byte string that `data[from..to]` is, or `None` where it
/// is none.
pub fn read_byte_string(data: &[u8], from: usize, to: usize) -> (bytes: Option<Vec<u8>>)
    requires
        from <= to <= data@.len(),
    ensures
        optional_bytes(bytes) == byte_string(data@.subrange(from as int, to as int)),
{
    let ghost part = data@.subrange(from as int, to as int);
    if to - from < 4 {
        return None;
    }
    assert(number_at(part, 0) == number_at(data@, from as int));
    if read_number(data, from) as usize != to - from - 4 {
        return None;
    }
    let bytes = copy_range(data, from + 4, to);
    assert(bytes@ =~= part.skip(4));
    Some(bytes)
}

/// Reads the data of an object's cell, or `None` where `data` is not laid
/// out as one.
pub fn read_spore_data(data: &[u8]) -> (spore: Option<SporeData>)
    ensures
        match spore {
            Some(spore) => spore_data_of(data@) == Some(spore@),
            None => spore_data_of(data@) is None,
        },
{
    let ranges = match read_table(data) {
        Some(ranges) => ranges,
        None => {
            return None;
        },
    };
    if ranges.len() < 3 {
        return None;
    }
    let content_type = match read_byte_string(data, ranges[0].0, ranges[0].1) {
        Some(bytes) => bytes,
        None => {
            return None;
        },
    };
    let content = match read_byte_string(data, ranges[1].0, ranges[1].1) {
        Some(bytes) => bytes,
        None => {
            return None;
        },
    };
    let cluster_id = if ranges[2].0 == ranges[2].1 {
        None
    } else {
        match read_byte_string(data, ranges[2].0, ranges[2].1) {
            Some(bytes) => Some(bytes),
            None => {
                return None;
            },
        }
    };
    Some(SporeData { content_type, content, cluster_id })
}

/// Reads the data of a cluster's cell, or `None` where `data` is not laid
/// out as one.
pub fn read_cluster_data(data: &[u8]) -> (cluster: Option<ClusterData>)
    ensures
        match cluster {
            Some(cluster) => cluster_data_of(data@) == Some(cluster@),
            None => cluster_data_of(data@) is None,
        },
{
    let ranges = match read_table(data) {
        Some(ranges) => ranges,
        None => {
            return None;
        },
    };
    if ranges.len() < 2 {
        return None;
    }
    let name = match read_byte_string(data, ranges[0].0, ranges[0].1) {
        Some(bytes) => bytes,
        None => {
            return None;
        },
    };
    let description = match read_byte_string(data, ranges[1].0, ranges[1].1) {
        Some(bytes) => bytes,
        None => {
            return None;
        },
    };
    Some(ClusterData { name, description })
}

} // verus!
