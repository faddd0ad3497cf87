//! The description of a video stream that a script record may carry.

use vstd::prelude::*;
use crate::flv::{FlvField, FlvValue, FlvVariable};
use crate::number::Number;

verus! {

/// The name of the script variable that describes the stream: `onMetaData`.
pub const ON_META_DATA: [u8; 10] = [0x6f, 0x6e, 0x4d, 0x65, 0x74, 0x61, 0x44, 0x61, 0x74, 0x61];

/// The member name `width`.
pub const WIDTH: [u8; 5] = [0x77, 0x69, 0x64, 0x74, 0x68];

/// The member name `height`.
pub const HEIGHT: [u8; 6] = [0x68, 0x65, 0x69, 0x67, 0x68, 0x74];

/// The member name `videocodecid`.
pub const VIDEO_CODEC_ID: [u8; 12] = [
    0x76, 0x69, 0x64, 0x65, 0x6f, 0x63, 0x6f, 0x64, 0x65, 0x63, 0x69, 0x64,
];

/// The member name `framerate`.
pub const FRAME_RATE: [u8; 9] = [0x66, 0x72, 0x61, 0x6d, 0x65, 0x72, 0x61, 0x74, 0x65];

/// The member name `duration`.
pub const DURATION: [u8; 8] = [0x64, 0x75, 0x72, 0x61, 0x74, 0x69, 0x6f, 0x6e];

/// The five numbers that describe a video stream, each as far as a record
/// gave it.
#[derive(Clone, Copy, Debug, PartialEq, Eq)]
pub struct StreamMetadata {
    pub width: Option<Number>,
    pub height: Option<Number>,
    pub video_codec_id: Option<Number>,
    pub frame_rate: Option<Number>,
    pub duration: Option<Number>,
}

/// The members that describe the stream in one variable: those of a compound
/// value named `onMetaData`.
pub open spec fn members_of(var: FlvVariable) -> Seq<FlvField> {
    if var.name@ == ON_META_DATA@ {
        match var.data {
            FlvValue::Object(members) => members@,
            FlvValue::EcmaArray(members) => members@,
            FlvValue::StrictArray(members) => members@,
            _ => Seq::empty(),
        }
    } else {
        Seq::empty()
    }
}

/// The members that describe the stream in a record, in the record's order.
pub open spec fn described_members(vars: Seq<FlvVariable>) -> Seq<FlvField>
    decreases vars.len(),
{
    if vars.len() == 0 {
        Seq::empty()
    } else {
        described_members(vars.drop_last()) + members_of(vars.last())
    }
}

/// The number of the last member that has the given name and a numeric
/// value.
pub open spec fn last_number(members: Seq<FlvField>, name: Seq<u8>) -> Option<Number>
    decreases members.len(),
{
    if members.len() == 0 {
        None
    } else if members.last().name@ == name && members.last().number is Some {
        members.last().number
    } else {
        last_number(members.drop_last(), name)
    }
}

/// The description that a sequence of members gives.
pub open spec fn metadata_over(members: Seq<FlvField>) -> StreamMetadata {
    StreamMetadata {
        width: last_number(members, WIDTH@),
        height: last_number(members, HEIGHT@),
        video_codec_id: last_number(members, VIDEO_CODEC_ID@),
        frame_rate: last_number(members, FRAME_RATE@),
        duration: last_number(members, DURATION@),
    }
}

/// The description that a script record gives.
pub open spec fn metadata_of(vars: Seq<FlvVariable>) -> StreamMetadata {
    metadata_over(described_members(vars))
}

/// Whether a name is made of exactly the expected bytes.
pub fn name_is<const N: usize>(name: &Vec<u8>, expected: &[u8; N]) -> (same: bool)
    ensures
        same == (name@ == expected@),
{
    if name.len() != N {
        return false;
    }
    let mut i: usize = 0;
    while i < N
        invariant
            name.len() == N,
            i <= N,
            forall|k: int| 0 <= k < i ==> name@[k] == expected@[k],
        decreases N - i,
    {
        if name[i] != expected[i] {
            return false;
        }
        i += 1;
    }
    assert(name@ =~= expected@);
    true
}

/// One more member changes a name's number only if it has that name and a
/// numeric value.
proof fn lemma_last_number_push(members: Seq<FlvField>, member: FlvField, name: Seq<u8>)
    ensures
        last_number(members.push(member), name) == if member.name@ == name && member.number is Some {
            member.number
        } else {
            last_number(members, name)
        },
{
    assert(members.push(member).drop_last() =~= members);
}

/// A record's members are those of its variables but the last, followed by
/// the last one's.
proof fn lemma_described_members_step(vars: Seq<FlvVariable>, i: int)
    requires
        0 <= i < vars.len(),
    ensures
        described_members(vars.take(i + 1)) == described_members(vars.take(i)) + members_of(
            vars[i],
        ),
{
    assert(vars.take(i + 1).drop_last() =~= vars.take(i));
}

impl StreamMetadata {
    /// The description that gives none of the five numbers.
    pub fn empty() -> (metadata: StreamMetadata)
        ensures
            metadata == metadata_over(Seq::empty()),
            !metadata.is_complete(),
    {
        StreamMetadata {
            width: None,
            height: None,
            video_codec_id: None,
            frame_rate: None,
            duration: None,
        }
    }

    /// Whether all five numbers are given.
    pub open spec fn is_complete(&self) -> bool {
        self.width is Some && self.height is Some && self.video_codec_id is Some
            && self.frame_rate is Some && self.duration is Some
    }

    /// The description with one more member taken into account.
    fn with_member(self, member: &FlvField, Ghost(seen): Ghost<Seq<FlvField>>) -> (metadata:
        StreamMetadata)
        requires
            self == metadata_over(seen),
        ensures
            metadata == metadata_over(seen.push(*member)),
    {
        proof {
            lemma_last_number_push(seen, *member, WIDTH@);
            lemma_last_number_push(seen, *member, HEIGHT@);
            lemma_last_number_push(seen, *member, VIDEO_CODEC_ID@);
            lemma_last_number_push(seen, *member, FRAME_RATE@);
            lemma_last_number_push(seen, *member, DURATION@);
        }
        let mut metadata = self;
        if member.number.is_some() {
            if name_is(&member.name, &WIDTH) {
                metadata.width = member.number;
            } else if name_is(&member.name, &HEIGHT) {
                metadata.height = member.number;
            } else if name_is(&member.name, &VIDEO_CODEC_ID) {
                metadata.video_codec_id = member.number;
            } else if name_is(&member.name, &FRAME_RATE) {
                metadata.frame_rate = member.number;
            } else if name_is(&member.name, &DURATION) {
                metadata.duration = member.number;
            }
        }
        metadata
    }

    /// The description with the members of one compound value taken into
    /// account.
    fn with_members(self, members: &Vec<FlvField>, Ghost(seen): Ghost<Seq<FlvField>>) -> (metadata:
        StreamMetadata)
        requires
            self == metadata_over(seen),
        ensures
            metadata == metadata_over(seen + members@),
    {
        let mut metadata = self;
        let mut j: usize = 0;
        assert(seen + members@.take(0) =~= seen);
        while j < members.len()
            invariant
                j <= members.len(),
                metadata == metadata_over(seen + members@.take(j as int)),
            decreases members.len() - j,
        {
            metadata = metadata.with_member(&members[j], Ghost(seen + members@.take(j as int)));
            assert((seen + members@.take(j as int)).push(members@[j as int]) =~= seen
                + members@.take(j + 1));
            j += 1;
        }
        assert(members@.take(members.len() as int) =~= members@);
        metadata
    }

    /// Reads the description that a script record gives: for each of the five
    /// names, the number of the last member of that name among the compound
    /// values called `onMetaData`.
    pub fn read(vars: &Vec<FlvVariable>) -> (metadata: StreamMetadata)
        ensures
            metadata == metadata_of(vars@),
    {
        let mut metadata = StreamMetadata::empty();
        let mut i: usize = 0;
        assert(vars@.take(0) =~= Seq::<FlvVariable>::empty());
        while i < vars.len()
            invariant
                i <= vars.len(),
                metadata == metadata_of(vars@.take(i as int)),
            decreases vars.len() - i,
        {
            let var = &vars[i];
            let ghost seen = described_members(vars@.take(i as int));
            proof {
                lemma_described_members_step(vars@, i as int);
                assert(seen + Seq::<FlvField>::empty() =~= seen);
            }
            if name_is(&var.name, &ON_META_DATA) {
                match &var.data {
                    FlvValue::Object(members) => {
                        metadata = metadata.with_members(members, Ghost(seen));
                    },
                    FlvValue::EcmaArray(members) => {
                        metadata = metadata.with_members(members, Ghost(seen));
                    },
                    FlvValue::StrictArray(members) => {
                        metadata = metadata.with_members(members, Ghost(seen));
                    },
                    _ => {},
                }
            }
            i += 1;
        }
        assert(vars@.take(vars.len() as int) =~= vars@);
        metadata
    }
}

} // verus!
