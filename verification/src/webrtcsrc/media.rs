//! What offers and answers say about media.
use crate::numbers::{
    contains, decimal, has_part, in_two, parse_i32, parse_u32, signed_value, split_in_two,
    to_decimal, unsigned_value,
};
use crate::text::{characters, same};
use vstd::prelude::*;

verus! {

/// The header extension that numbers packets for congestion control.
pub const RTP_TWCC_URI: &'static str =
    "http://www.ietf.org/id/draft-holmer-rmcat-transport-wide-cc-extensions-01";

/// The texts of some strings.
pub open spec fn texts(strings: Seq<String>) -> Seq<Seq<char>> {
    strings.map_values(|string: String| string@)
}

/// The view of a text that may be missing.
pub open spec fn maybe_text(text: Option<String>) -> Option<Seq<char>> {
    match text {
        None => None,
        Some(text) => Some(text@),
    }
}

/// The payload type that a format is, if it is a number of 32 bits.
pub open spec fn payload_type_of(format: Seq<char>) -> Option<int> {
    match signed_value(format) {
        Some(n) => if i32::MIN <= n <= i32::MAX {
            Some(n)
        } else {
            None
        },
        None => None,
    }
}

/// The identifier under which an attribute's value offers the extension: the
/// value is the identifier, one space, and a text that holds the extension's URI.
pub open spec fn twcc_index_in(value: Option<Seq<char>>) -> Option<int> {
    match value {
        None => None,
        Some(value) => match in_two(value) {
            None => None,
            Some((key, uri)) => if has_part(uri, RTP_TWCC_URI@) {
                match unsigned_value(key) {
                    Some(n) => if n <= u32::MAX {
                        Some(n)
                    } else {
                        None
                    },
                    None => None,
                }
            } else {
                None
            },
        },
    }
}

/// The identifier under which the first attribute that does offers the extension.
pub open spec fn twcc_index_among(values: Seq<Option<Seq<char>>>) -> Option<int>
    decreases values.len(),
{
    if values.len() == 0 {
        None
    } else if twcc_index_in(values[0]) is Some {
        twcc_index_in(values[0])
    } else {
        twcc_index_among(values.drop_first())
    }
}

/// The places of what is encoded in one way, in order.
pub open spec fn places_of(encodings: Seq<Option<Seq<char>>>, codec: Seq<char>) -> Seq<int>
    decreases encodings.len(),
{
    if encodings.len() == 0 {
        Seq::empty()
    } else {
        let earlier = places_of(encodings.drop_last(), codec);
        if encodings.last() == Some(codec) {
            earlier.push(encodings.len() - 1)
        } else {
            earlier
        }
    }
}

/// The places of what is encoded in one of some ways, the preferred first.
pub open spec fn preferred(encodings: Seq<Option<Seq<char>>>, codecs: Seq<Seq<char>>) -> Seq<int>
    decreases codecs.len(),
{
    if codecs.len() == 0 {
        Seq::empty()
    } else {
        preferred(encodings, codecs.drop_last()) + places_of(encodings, codecs.last())
    }
}

/// The payload type that a format is.
pub fn payload_type(format: &str) -> (number: Option<i32>)
    ensures
        match number {
            Some(n) => payload_type_of(format@) == Some(n as int),
            None => payload_type_of(format@) is None,
        },
{
    parse_i32(&characters(format))
}

/// The identifier under which an attribute's value offers the extension.
fn twcc_index(value: &Option<String>) -> (index: Option<u32>)
    ensures
        match index {
            Some(n) => twcc_index_in(maybe_text(*value)) == Some(n as int),
            None => twcc_index_in(maybe_text(*value)) is None,
        },
{
    match value {
        None => None,
        Some(value) => match split_in_two(&characters(value.as_str())) {
            None => None,
            Some((key, uri)) => if contains(&uri, &characters(RTP_TWCC_URI)) {
                parse_u32(&key)
            } else {
                None
            },
        },
    }
}

/// The identifier under which the attributes of a medium offer the extension, if
/// they do: that of the first attribute that does.
pub fn twcc_extension(values: &Vec<Option<String>>) -> (index: Option<u32>)
    ensures
        ({
            let found = twcc_index_among(values@.map_values(|v: Option<String>| maybe_text(v)));
            match index {
                Some(n) => found == Some(n as int),
                None => found is None,
            }
        }),
{
    let ghost all = values@.map_values(|v: Option<String>| maybe_text(v));
    let mut at: usize = 0;
    assert(all.skip(0) =~= all);
    while at < values.len()
        invariant
            at <= values@.len(),
            all == values@.map_values(|v: Option<String>| maybe_text(v)),
            twcc_index_among(all) == twcc_index_among(all.skip(at as int)),
        decreases values@.len() - at,
    {
        assert(all.skip(at as int)[0] == maybe_text(values@[at as int]));
        let index = twcc_index(&values[at]);
        if index.is_some() {
            return index;
        }
        assert(all.skip(at as int).drop_first() =~= all.skip(at + 1));
        at = at + 1;
    }
    None
}

/// The name of the field that holds the URI of an extension.
pub fn extension_field(index: u32) -> (name: String)
    ensures
        name@ == "extmap-"@ + decimal(index as nat),
{
    "extmap-".to_owned().concat(to_decimal(index as u64).as_str())
}

/// The places of what is encoded in one way, added to `places`.
fn add_places(encodings: &Vec<Option<String>>, codec: &str, places: &mut Vec<usize>)
    ensures
        final(places)@.map_values(|n: usize| n as int) == old(places)@.map_values(
            |n: usize| n as int,
        ) + places_of(encodings@.map_values(|e: Option<String>| maybe_text(e)), codec@),
{
    let ghost all = encodings@.map_values(|e: Option<String>| maybe_text(e));
    let ghost first = places@.map_values(|n: usize| n as int);
    let mut at: usize = 0;
    assert(all.take(0) =~= Seq::empty());
    assert(first + Seq::empty() =~= first);
    while at < encodings.len()
        invariant
            at <= encodings@.len(),
            all == encodings@.map_values(|e: Option<String>| maybe_text(e)),
            places@.map_values(|n: usize| n as int) == first + places_of(
                all.take(at as int),
                codec@,
            ),
        decreases encodings@.len() - at,
    {
        let ghost more = all.take(at + 1);
        assert(more.drop_last() =~= all.take(at as int));
        assert(more.last() == maybe_text(encodings@[at as int]));
        let mut fits: bool = false;
        if let Some(encoding) = &encodings[at] {
            fits = same(encoding.as_str(), codec);
        }
        if fits {
            let ghost before = places@;
            places.push(at);
            assert(places@.map_values(|n: usize| n as int) =~= before.map_values(
                |n: usize| n as int,
            ).push(at as int));
            assert(first + places_of(all.take(at as int), codec@).push(at as int) =~= (first
                + places_of(all.take(at as int), codec@)).push(at as int));
        }
        at = at + 1;
    }
    assert(all.take(at as int) =~= all);
}

/// The places of what can be used, the preferred codecs first, and what comes
/// first of each.
pub fn select_caps(encodings: &Vec<Option<String>>, codecs: &Vec<String>) -> (places: Vec<usize>)
    ensures
        places@.map_values(|n: usize| n as int) == preferred(
            encodings@.map_values(|e: Option<String>| maybe_text(e)),
            texts(codecs@),
        ),
{
    let ghost all = encodings@.map_values(|e: Option<String>| maybe_text(e));
    let ghost names = texts(codecs@);
    let mut places: Vec<usize> = Vec::new();
    let mut at: usize = 0;
    assert(names.take(0) =~= Seq::empty());
    assert(places@.map_values(|n: usize| n as int) =~= Seq::empty());
    while at < codecs.len()
        invariant
            at <= codecs@.len(),
            all == encodings@.map_values(|e: Option<String>| maybe_text(e)),
            names == texts(codecs@),
            places@.map_values(|n: usize| n as int) == preferred(all, names.take(at as int)),
        decreases codecs@.len() - at,
    {
        assert(names.take(at + 1).drop_last() =~= names.take(at as int));
        assert(names.take(at + 1).last() == codecs@[at as int]@);
        add_places(encodings, codecs[at].as_str(), &mut places);
        at = at + 1;
    }
    assert(names.take(at as int) =~= names);
    places
}

/// One format of an offer, and how its payload type is encoded, if it is one and
/// there is word of it.
#[derive(Debug)]
pub struct OfferedFormat {
    pub format: String,
    pub encoding: Option<String>,
}

/// One medium of an offer: its formats and the values of its attributes.
#[derive(Debug)]
pub struct OfferedMedia {
    pub formats: Vec<OfferedFormat>,
    pub attributes: Vec<Option<String>>,
}

/// One way to receive a medium: a payload type, and the field that asks for the
/// numbering of packets, where that is offered.
#[derive(Debug)]
pub struct ChosenFormat {
    pub payload_type: i32,
    pub extension: Option<String>,
}

/// The values of some ways to receive a medium.
pub open spec fn chosen_view(chosen: Seq<ChosenFormat>) -> Seq<(int, Option<Seq<char>>)> {
    chosen.map_values(|c: ChosenFormat| (c.payload_type as int, maybe_text(c.extension)))
}

/// The payload types among some formats of an offer, in order, and how they are
/// encoded.
pub open spec fn offered(formats: Seq<OfferedFormat>) -> Seq<(int, Option<Seq<char>>)>
    decreases formats.len(),
{
    if formats.len() == 0 {
        Seq::empty()
    } else {
        let earlier = offered(formats.drop_last());
        match payload_type_of(formats.last().format@) {
            Some(n) => earlier.push((n, maybe_text(formats.last().encoding))),
            None => earlier,
        }
    }
}

impl OfferedMedia {
    /// The field that asks for the numbering of packets, where that is offered.
    pub open spec fn extension(self) -> Option<Seq<char>> {
        match twcc_index_among(self.attributes@.map_values(|v: Option<String>| maybe_text(v))) {
            Some(n) => Some("extmap-"@ + decimal(n as nat)),
            None => None,
        }
    }

    /// How to receive the medium, the preferred way first.
    pub open spec fn choice(self, codecs: Seq<Seq<char>>) -> Seq<(int, Option<Seq<char>>)> {
        let all = offered(self.formats@);
        preferred(all.map_values(|o: (int, Option<Seq<char>>)| o.1), codecs).map_values(
            |place: int| (all[place].0, self.extension()),
        )
    }
}

/// How to receive a medium of an offer, the preferred way first: every payload
/// type that is encoded by one of the codecs, with the numbering of packets where
/// that is offered.
pub fn choose_formats(media: &OfferedMedia, codecs: &Vec<String>) -> (chosen: Vec<ChosenFormat>)
    ensures
        chosen_view(chosen@) == media.choice(texts(codecs@)),
{
    let ghost all = offered(media.formats@);
    let ghost names = all.map_values(|o: (int, Option<Seq<char>>)| o.1);
    let mut types: Vec<i32> = Vec::new();
    let mut encodings: Vec<Option<String>> = Vec::new();
    let mut at: usize = 0;
    assert(media.formats@.take(0) =~= Seq::empty());
    while at < media.formats.len()
        invariant
            at <= media.formats@.len(),
            types@.len() == encodings@.len(),
            types@.len() == offered(media.formats@.take(at as int)).len(),
            forall|i: int|
                0 <= i < types@.len() ==> (#[trigger] types@[i] as int, maybe_text(encodings@[i]))
                    == offered(media.formats@.take(at as int))[i],
        decreases media.formats@.len() - at,
    {
        let ghost more = media.formats@.take(at + 1);
        assert(more.drop_last() =~= media.formats@.take(at as int));
        assert(more.last() == media.formats@[at as int]);
        let format = &media.formats[at];
        if let Some(n) = payload_type(format.format.as_str()) {
            types.push(n);
            encodings.push(format.encoding.clone());
        }
        at = at + 1;
    }
    assert(media.formats@.take(at as int) =~= media.formats@);
    assert(encodings@.map_values(|e: Option<String>| maybe_text(e)) =~= names) by {
        assert forall|i: int| 0 <= i < encodings@.len() implies maybe_text(
            #[trigger] encodings@[i],
        ) == names[i] by {
            assert((types@[i] as int, maybe_text(encodings@[i])) == all[i]);
        }
    }
    let places = select_caps(&encodings, codecs);
    let ghost wanted = preferred(names, texts(codecs@));
    let index = twcc_extension(&media.attributes);
    let mut chosen: Vec<ChosenFormat> = Vec::new();
    let mut at: usize = 0;
    while at < places.len()
        invariant
            at <= places@.len(),
            all == offered(media.formats@),
            names == all.map_values(|o: (int, Option<Seq<char>>)| o.1),
            wanted == preferred(names, texts(codecs@)),
            places@.map_values(|n: usize| n as int) == wanted,
            types@.len() == all.len(),
            forall|i: int| 0 <= i < types@.len() ==> #[trigger] types@[i] as int == all[i].0,
            match index {
                Some(n) => twcc_index_among(
                    media.attributes@.map_values(|v: Option<String>| maybe_text(v)),
                ) == Some(n as int),
                None => twcc_index_among(
                    media.attributes@.map_values(|v: Option<String>| maybe_text(v)),
                ) is None,
            },
            chosen_view(chosen@) == wanted.take(at as int).map_values(
                |place: int| (all[place].0, media.extension()),
            ),
        decreases places@.len() - at,
    {
        proof {
            only_known_codecs_are_used(names, texts(codecs@), at as int);
            assert(wanted[at as int] == places@[at as int] as int);
        }
        let extension = match index {
            Some(n) => Some(extension_field(n)),
            None => None,
        };
        let ghost before = chosen@;
        chosen.push(ChosenFormat { payload_type: types[places[at]], extension });
        assert(chosen_view(chosen@) =~= chosen_view(before).push(
            (all[wanted[at as int]].0, media.extension()),
        ));
        assert(wanted.take(at + 1) =~= wanted.take(at as int).push(wanted[at as int]));
        at = at + 1;
        assert(chosen_view(chosen@) =~= wanted.take(at as int).map_values(
            |place: int| (all[place].0, media.extension()),
        ));
    }
    assert(wanted.take(at as int) =~= wanted);
    chosen
}

/// One format of an answer: whether there are capabilities for its payload type,
/// and the payload type of the stream that it belongs to, where they say.
#[derive(Debug)]
pub struct AnswerFormat {
    pub format: String,
    pub has_caps: bool,
    pub apt: Option<String>,
}

impl AnswerFormat {
    /// Whether the format is that of an original stream: a payload type with
    /// capabilities that belongs to no other.
    pub open spec fn is_original(self) -> bool {
        &&& payload_type_of(self.format@) is Some
        &&& self.has_caps
        &&& self.apt matches Some(apt) ==> apt@ == self.format@
    }
}

/// Whether a place is that of the first format that is that of an original
/// stream, or missing where there is none.
pub open spec fn is_original_place(formats: Seq<AnswerFormat>, place: Option<usize>) -> bool {
    match place {
        Some(at) => {
            &&& at < formats.len()
            &&& formats[at as int].is_original()
            &&& forall|i: int| 0 <= i < at ==> !(#[trigger] formats[i]).is_original()
        },
        None => forall|i: int| 0 <= i < formats.len() ==> !(#[trigger] formats[i]).is_original(),
    }
}

/// The first format of an answer that is that of an original stream.
pub fn original_format(formats: &Vec<AnswerFormat>) -> (place: Option<usize>)
    ensures
        is_original_place(formats@, place),
{
    let mut at: usize = 0;
    while at < formats.len()
        invariant
            at <= formats@.len(),
            forall|i: int| 0 <= i < at ==> !(#[trigger] formats@[i]).is_original(),
        decreases formats@.len() - at,
    {
        let format = &formats[at];
        if payload_type(format.format.as_str()).is_some() && format.has_caps {
            let original = match &format.apt {
                None => true,
                Some(apt) => same(apt.as_str(), format.format.as_str()),
            };
            if original {
                return Some(at);
            }
        }
        at = at + 1;
    }
    None
}

/// What a stream carries.
#[derive(Debug, PartialEq, Eq, Clone, Copy, Structural)]
pub enum StreamType {
    Video,
    Audio,
    Unknown,
}

/// What a medium of an answer carries.
pub open spec fn stream_type_of(media: Option<Seq<char>>) -> StreamType {
    if media == Some("video"@) {
        StreamType::Video
    } else if media == Some("audio"@) {
        StreamType::Audio
    } else {
        StreamType::Unknown
    }
}

/// What a medium of an answer carries.
pub fn stream_type(media: &Option<String>) -> (kind: StreamType)
    ensures
        kind == stream_type_of(maybe_text(*media)),
{
    match media {
        None => StreamType::Unknown,
        Some(name) => if same(name.as_str(), "video") {
            StreamType::Video
        } else if same(name.as_str(), "audio") {
            StreamType::Audio
        } else {
            StreamType::Unknown
        },
    }
}

/// One medium of an answer: what it is, and its formats.
#[derive(Debug)]
pub struct AnsweredMedia {
    pub media: Option<String>,
    pub formats: Vec<AnswerFormat>,
}

/// The stream that a medium of an answer stands for: the place of the format with
/// its capabilities, if there is one, and what it carries.
#[derive(Debug, PartialEq, Eq, Clone, Copy, Structural)]
pub struct AnsweredStream {
    pub format: Option<usize>,
    pub kind: StreamType,
}

/// The stream that a medium of an answer stands for.
pub fn answered_stream(media: &AnsweredMedia) -> (stream: AnsweredStream)
    ensures
        stream.kind == stream_type_of(maybe_text(media.media)),
        is_original_place(media.formats@, stream.format),
{
    AnsweredStream { format: original_format(&media.formats), kind: stream_type(&media.media) }
}

/// The streams that the media of an answer stand for.
pub fn answered_streams(medias: &Vec<AnsweredMedia>) -> (streams: Vec<AnsweredStream>)
    ensures
        streams@.len() == medias@.len(),
        forall|i: int|
            0 <= i < streams@.len() ==> {
                &&& (#[trigger] streams@[i]).kind == stream_type_of(maybe_text(medias@[i].media))
                &&& is_original_place(medias@[i].formats@, streams@[i].format)
            },
{
    let mut streams: Vec<AnsweredStream> = Vec::new();
    while streams.len() < medias.len()
        invariant
            streams@.len() <= medias@.len(),
            forall|i: int|
                0 <= i < streams@.len() ==> {
                    &&& (#[trigger] streams@[i]).kind == stream_type_of(
                        maybe_text(medias@[i].media),
                    )
                    &&& is_original_place(medias@[i].formats@, streams@[i].format)
                },
        decreases medias@.len() - streams@.len(),
    {
        let stream = answered_stream(&medias[streams.len()]);
        streams.push(stream);
    }
    streams
}

/// The medium's place among some is in range.
proof fn lemma_places_in_range(encodings: Seq<Option<Seq<char>>>, codec: Seq<char>, at: int)
    requires
        0 <= at < places_of(encodings, codec).len(),
    ensures
        0 <= places_of(encodings, codec)[at] < encodings.len(),
        encodings[places_of(encodings, codec)[at]] == Some(codec),
    decreases encodings.len(),
{
    let shorter = encodings.drop_last();
    let earlier = places_of(shorter, codec);
    if at < earlier.len() {
        lemma_places_in_range(shorter, codec, at);
        assert(shorter[earlier[at]] == encodings[earlier[at]]);
    }
}

/// Only what is encoded in a way that was asked for is used.
pub proof fn only_known_codecs_are_used(
    encodings: Seq<Option<Seq<char>>>,
    codecs: Seq<Seq<char>>,
    at: int,
)
    requires
        0 <= at < preferred(encodings, codecs).len(),
    ensures
        ({
            let place = preferred(encodings, codecs)[at];
            &&& 0 <= place < encodings.len()
            &&& encodings[place] is Some
            &&& codecs.contains(encodings[place]->0)
        }),
    decreases codecs.len(),
{
    let earlier = preferred(encodings, codecs.drop_last());
    if at < earlier.len() {
        only_known_codecs_are_used(encodings, codecs.drop_last(), at);
        let name = encodings[earlier[at]]->0;
        let i = codecs.drop_last().index_of(name);
        assert(codecs[i] == name);
    } else {
        lemma_places_in_range(encodings, codecs.last(), at - earlier.len());
        assert(codecs[codecs.len() - 1] == codecs.last());
    }
}

/// Whatever is encoded in a way that was asked for is used.
pub proof fn every_known_codec_is_used(
    encodings: Seq<Option<Seq<char>>>,
    codecs: Seq<Seq<char>>,
    place: int,
)
    requires
        0 <= place < encodings.len(),
        encodings[place] is Some,
        codecs.contains(encodings[place]->0),
    ensures
        preferred(encodings, codecs).contains(place),
    decreases codecs.len(),
{
    let name = encodings[place]->0;
    let i = codecs.index_of(name);
    if i == codecs.len() - 1 {
        lemma_places_complete(encodings, name, place);
        let found = places_of(encodings, name);
        let earlier = preferred(encodings, codecs.drop_last());
        let at = found.index_of(place);
        assert(preferred(encodings, codecs)[earlier.len() + at] == place);
    } else {
        assert(codecs.drop_last()[i] == name);
        every_known_codec_is_used(encodings, codecs.drop_last(), place);
        let earlier = preferred(encodings, codecs.drop_last());
        let at = earlier.index_of(place);
        assert(preferred(encodings, codecs)[at] == place);
    }
}

/// Every place of an encoding is found.
proof fn lemma_places_complete(encodings: Seq<Option<Seq<char>>>, codec: Seq<char>, place: int)
    requires
        0 <= place < encodings.len(),
        encodings[place] == Some(codec),
    ensures
        places_of(encodings, codec).contains(place),
    decreases encodings.len(),
{
    let found = places_of(encodings, codec);
    if place == encodings.len() - 1 {
        assert(found.last() == place);
    } else {
        let shorter = encodings.drop_last();
        assert(shorter[place] == encodings[place]);
        lemma_places_complete(shorter, codec, place);
        let at = places_of(shorter, codec).index_of(place);
        assert(found[at] == place);
    }
}

/// A format is a payload type exactly where it is a number of 32 bits, and then that
/// number.
pub proof fn payload_types_are_numbers(format: Seq<char>)
    ensures
        payload_type_of(format) is Some <==> (signed_value(format) matches Some(n) && -0x8000_0000
            <= n <= 0x7fff_ffff),
        payload_type_of(format) is Some ==> payload_type_of(format) == signed_value(format),
{
}

/// An attribute offers the numbering of packets exactly where its value is a number of
/// 32 bits, one space, and a text that has the extension's URI, and then under that
/// number.
pub proof fn the_numbering_is_offered_under_a_number(key: Seq<char>, uri: Seq<char>)
    requires
        !key.contains(' '),
        !uri.contains(' '),
    ensures
        ({
            let found = twcc_index_in(Some(key + seq![' '] + uri));
            let named = has_part(
                uri,
                "http://www.ietf.org/id/draft-holmer-rmcat-transport-wide-cc-extensions-01"@,
            );
            &&& found is Some <==> named && (unsigned_value(key) matches Some(n) && n
                <= 0xffff_ffff)
            &&& found is Some ==> found == unsigned_value(key)
        }),
{
    crate::numbers::joined_pieces_are_parted(key, uri);
}

/// A value that is missing, or is not two pieces with one space between them, offers no
/// numbering of packets.
pub proof fn other_attributes_offer_no_numbering(value: Option<Seq<char>>)
    requires
        value matches Some(text) ==> in_two(text) is None,
    ensures
        twcc_index_in(value) is None,
{
}

/// Of several attributes that offer the numbering of packets, the first counts.
pub proof fn the_first_offer_counts(values: Seq<Option<Seq<char>>>, at: int)
    requires
        0 <= at <= values.len(),
        forall|i: int| 0 <= i < at ==> twcc_index_in(#[trigger] values[i]) is None,
        at < values.len() ==> twcc_index_in(values[at]) is Some,
    ensures
        at < values.len() ==> twcc_index_among(values) == twcc_index_in(values[at]),
        at == values.len() ==> twcc_index_among(values) is None,
    decreases values.len(),
{
    if at > 0 {
        let rest = values.drop_first();
        assert(twcc_index_in(values[0]) is None);
        assert forall|i: int| 0 <= i < at - 1 implies twcc_index_in(#[trigger] rest[i]) is None by {
            assert(rest[i] == values[i + 1]);
        }
        the_first_offer_counts(rest, at - 1);
    }
}

/// The places of an encoding are those that have it, each once and in order.
pub proof fn places_are_in_order(encodings: Seq<Option<Seq<char>>>, codec: Seq<char>)
    ensures
        forall|i: int, j: int|
            0 <= i < j < places_of(encodings, codec).len() ==> #[trigger] places_of(
                encodings,
                codec,
            )[i] < #[trigger] places_of(encodings, codec)[j],
        forall|place: int| #[trigger]
            places_of(encodings, codec).contains(place) <==> 0 <= place < encodings.len()
                && encodings[place] == Some(codec),
    decreases encodings.len(),
{
    let found = places_of(encodings, codec);
    if encodings.len() > 0 {
        let shorter = encodings.drop_last();
        let earlier = places_of(shorter, codec);
        places_are_in_order(shorter, codec);
        assert forall|i: int, j: int| 0 <= i < j < found.len() implies #[trigger] found[i]
            < #[trigger] found[j] by {
            if j == earlier.len() {
                lemma_places_in_range(shorter, codec, i);
            }
        }
    }
    assert forall|place: int| #[trigger] found.contains(place) implies 0 <= place < encodings.len()
        && encodings[place] == Some(codec) by {
        lemma_places_in_range(encodings, codec, found.index_of(place));
    }
    assert forall|place: int|
        0 <= place < encodings.len() && encodings[place] == Some(codec) implies #[trigger] found.contains(
        place,
    ) by {
        lemma_places_complete(encodings, codec, place);
    }
}

/// What is preferred comes first: the places of the first codecs, then those of the
/// others; and of one codec, its places.
pub proof fn preferred_codecs_come_first(
    encodings: Seq<Option<Seq<char>>>,
    first: Seq<Seq<char>>,
    second: Seq<Seq<char>>,
    codec: Seq<char>,
)
    ensures
        preferred(encodings, Seq::empty()).len() == 0,
        preferred(encodings, seq![codec]) == places_of(encodings, codec),
        preferred(encodings, first + second) == preferred(encodings, first) + preferred(
            encodings,
            second,
        ),
    decreases second.len(),
{
    let one = seq![codec];
    assert(one.drop_last() =~= Seq::empty());
    assert(one.last() == codec);
    assert(preferred(encodings, one.drop_last()) == Seq::<int>::empty());
    assert(preferred(encodings, one) =~= places_of(encodings, codec));
    if second.len() == 0 {
        assert(first + second =~= first);
        assert(preferred(encodings, first) + preferred(encodings, second) =~= preferred(
            encodings,
            first,
        ));
    } else {
        assert((first + second).drop_last() =~= first + second.drop_last());
        assert((first + second).last() == second.last());
        preferred_codecs_come_first(encodings, first, second.drop_last(), codec);
        assert(preferred(encodings, first + second) =~= preferred(encodings, first) + preferred(
            encodings,
            second,
        ));
    }
}

/// Of the formats of an offer, those that are payload types count, in order, each with
/// how it is encoded.
pub proof fn payload_types_are_offered_in_order(
    first: Seq<OfferedFormat>,
    second: Seq<OfferedFormat>,
    format: OfferedFormat,
)
    ensures
        offered(first + second) == offered(first) + offered(second),
        ({
            let one = offered(seq![format]);
            &&& payload_type_of(format.format@) is None ==> one.len() == 0
            &&& payload_type_of(format.format@) matches Some(n) ==> one.len() == 1 && one[0].0 == n
                && one[0].1 == maybe_text(format.encoding)
        }),
    decreases second.len(),
{
    let one = seq![format];
    assert(one.drop_last() =~= Seq::empty());
    assert(one.last() == format);
    assert(offered(one.drop_last()) == Seq::<(int, Option<Seq<char>>)>::empty());
    if second.len() == 0 {
        assert(first + second =~= first);
        assert(offered(first) + offered(second) =~= offered(first));
    } else {
        assert((first + second).drop_last() =~= first + second.drop_last());
        assert((first + second).last() == second.last());
        payload_types_are_offered_in_order(first, second.drop_last(), format);
        assert(offered(first + second) =~= offered(first) + offered(second));
    }
}

/// A medium is received in every payload type that is encoded by a known codec, and in
/// no other; the preferred come first; and each asks for the numbering of packets
/// where, and as, that is offered.
pub proof fn media_are_received_as_preferred(media: OfferedMedia, codecs: Seq<Seq<char>>)
    ensures
        ({
            let all = offered(media.formats@);
            let encodings = all.map_values(|o: (int, Option<Seq<char>>)| o.1);
            let places = preferred(encodings, codecs);
            let chosen = media.choice(codecs);
            let index = twcc_index_among(
                media.attributes@.map_values(|v: Option<String>| maybe_text(v)),
            );
            &&& chosen.len() == places.len()
            &&& forall|i: int|
                0 <= i < chosen.len() ==> {
                    &&& 0 <= places[i] < all.len()
                    &&& (#[trigger] chosen[i]).0 == all[places[i]].0
                    &&& all[places[i]].1 is Some
                    &&& codecs.contains(all[places[i]].1->0)
                    &&& index is None ==> chosen[i].1 is None
                    &&& index matches Some(n) ==> chosen[i].1 == Some(
                        "extmap-"@ + decimal(n as nat),
                    )
                }
            &&& forall|at: int|
                0 <= at < all.len() && (#[trigger] all[at]).1 is Some && codecs.contains(
                    all[at].1->0,
                ) ==> places.contains(at)
        }),
{
    let all = offered(media.formats@);
    let encodings = all.map_values(|o: (int, Option<Seq<char>>)| o.1);
    let places = preferred(encodings, codecs);
    let chosen = media.choice(codecs);
    assert forall|i: int| 0 <= i < chosen.len() implies {
        &&& 0 <= places[i] < all.len()
        &&& (#[trigger] chosen[i]).0 == all[places[i]].0
        &&& all[places[i]].1 is Some
        &&& codecs.contains(all[places[i]].1->0)
    } by {
        only_known_codecs_are_used(encodings, codecs, i);
        assert(encodings[places[i]] == all[places[i]].1);
    }
    assert forall|at: int|
        0 <= at < all.len() && (#[trigger] all[at]).1 is Some && codecs.contains(
            all[at].1->0,
        ) implies places.contains(at) by {
        assert(encodings[at] == all[at].1);
        every_known_codec_is_used(encodings, codecs, at);
    }
}

/// A format is that of an original stream where it is a payload type with capabilities
/// that names no other payload type as its stream's.
pub proof fn originals_belong_to_no_other(format: AnswerFormat)
    ensures
        payload_type_of(format.format@) is None ==> !format.is_original(),
        !format.has_caps ==> !format.is_original(),
        payload_type_of(format.format@) is Some && format.has_caps ==> {
            &&& format.apt is None ==> format.is_original()
            &&& format.apt matches Some(apt) ==> (format.is_original() <==> apt@
                == format.format@)
        },
{
}

/// There is exactly one place to tell: that of the first format of an original stream,
/// or none.
pub proof fn the_first_original_is_told(formats: Seq<AnswerFormat>, place: Option<usize>)
    ensures
        is_original_place(formats, place) <==> {
            &&& place matches Some(at) ==> at < formats.len() && formats[at as int].is_original()
            &&& forall|i: int|
                0 <= i < formats.len() && (#[trigger] formats[i]).is_original() ==> (
                place matches Some(at) && at <= i)
        },
{
}

/// A stream carries video or audio exactly where its medium is called so.
pub proof fn streams_carry_what_media_are_called(media: Option<Seq<char>>)
    ensures
        stream_type_of(media) is Video <==> media == Some("video"@),
        stream_type_of(media) is Audio <==> media == Some("audio"@) && media != Some("video"@),
        media is None ==> stream_type_of(media) is Unknown,
{
}

/// Texts are looked at as they are.
pub proof fn texts_are_kept(strings: Seq<String>, text: String, chosen: Seq<ChosenFormat>)
    ensures
        maybe_text(Some(text)) == Some(text@),
        maybe_text(None) is None,
        texts(strings).len() == strings.len(),
        forall|i: int| 0 <= i < strings.len() ==> #[trigger] texts(strings)[i] == strings[i]@,
        chosen_view(chosen).len() == chosen.len(),
        forall|i: int|
            0 <= i < chosen.len() ==> (#[trigger] chosen_view(chosen)[i]).0
                == chosen[i].payload_type && chosen_view(chosen)[i].1 == maybe_text(
                chosen[i].extension,
            ),
{
}

} // verus!
