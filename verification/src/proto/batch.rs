//! Batches: many independent TTS items in one message to the worker, and their
//! responses in the same order.

use crate::buffer;
use crate::le;
use crate::proto::frame;
use crate::proto::frame::Tagged;
use crate::proto::item;
use crate::proto::item::{Found, ItemSpan};
use crate::proto::wire;
use crate::proto::wire::Read;
use crate::proto::{
    BatchItem, BatchItemView, Part, ProtoError, Response, ResponseView, MAX_BATCH, OP_TTS_BATCH,
    PROTO_VERSION,
};
use bytes::Bytes;
use vstd::prelude::*;

verus! {

broadcast use le::group_le;

/// The contents of items.
pub open spec fn items_view(items: Seq<BatchItem>) -> Seq<BatchItemView> {
    items.map_values(|i: BatchItem| i@)
}

/// The contents of responses.
pub open spec fn responses_view(responses: Seq<Response>) -> Seq<ResponseView> {
    responses.map_values(|r: Response| r@)
}

/// The bytes of items, one after the other.
pub open spec fn items_bytes(items: Seq<BatchItemView>) -> Seq<u8>
    decreases items.len(),
{
    if items.len() == 0 {
        Seq::empty()
    } else {
        items_bytes(items.drop_last()) + item::item_bytes(items.last())
    }
}

/// The bytes of responses, one after the other.
pub open spec fn responses_bytes(responses: Seq<ResponseView>) -> Seq<u8>
    decreases responses.len(),
{
    if responses.len() == 0 {
        Seq::empty()
    } else {
        responses_bytes(responses.drop_last()) + frame::response_bytes(responses.last())
    }
}

/// The bytes of a batch request, with its version and op.
pub open spec fn batch_request_bytes(items: Seq<BatchItemView>) -> Seq<u8> {
    seq![PROTO_VERSION, OP_TTS_BATCH] + wire::prefix(items.len()) + items_bytes(items)
}

/// The bytes of a batch response.
pub open spec fn batch_response_bytes(responses: Seq<ResponseView>) -> Seq<u8> {
    wire::prefix(responses.len()) + responses_bytes(responses)
}

/// What `count` items at the start of `s` come to.
pub open spec fn parse_items(s: Seq<u8>, count: nat) -> wire::Parsed<Seq<BatchItemView>>
    decreases count,
{
    if count == 0 {
        wire::Parsed::Done(Seq::empty(), 0)
    } else {
        match item::parse_item(s, Part::BatchJson, Part::BatchAudio) {
            wire::Parsed::More(n) => wire::Parsed::More(n),
            wire::Parsed::Fail(e) => wire::Parsed::Fail(e),
            wire::Parsed::Done(first, n) => prepend(
                seq![first],
                n,
                parse_items(s.skip(n as int), (count - 1) as nat),
            ),
        }
    }
}

/// What `count` responses at the start of `s` come to.
pub open spec fn parse_responses(s: Seq<u8>, count: nat) -> wire::Parsed<Seq<ResponseView>>
    decreases count,
{
    if count == 0 {
        wire::Parsed::Done(Seq::empty(), 0)
    } else {
        match frame::parse_response_as(s, Part::BatchResponse) {
            wire::Parsed::More(n) => wire::Parsed::More(n),
            wire::Parsed::Fail(e) => wire::Parsed::Fail(e),
            wire::Parsed::Done(first, n) => prepend(
                seq![first],
                n,
                parse_responses(s.skip(n as int), (count - 1) as nat),
            ),
        }
    }
}

/// The outcome of reading on behind values that took `used` bytes.
pub open spec fn prepend<V>(
    values: Seq<V>,
    used: nat,
    rest: wire::Parsed<Seq<V>>,
) -> wire::Parsed<Seq<V>> {
    match rest {
        wire::Parsed::More(n) => wire::Parsed::More(n),
        wire::Parsed::Fail(e) => wire::Parsed::Fail(e),
        wire::Parsed::Done(more, n) => wire::Parsed::Done(values + more, used + n),
    }
}

/// The body of a batch request at the start of `s`.
pub open spec fn parse_batch_request_body(s: Seq<u8>) -> wire::Parsed<Seq<BatchItemView>> {
    if s.len() < 4 {
        wire::Parsed::More((4 - s.len()) as nat)
    } else {
        let count = le::le32_value(s.subrange(0, 4));
        if count > MAX_BATCH {
            wire::Parsed::Fail(ProtoError::BatchFrameTooLarge(count as u32))
        } else {
            prepend(Seq::empty(), 4, parse_items(s.skip(4), count as nat))
        }
    }
}

/// The batch response at the start of `s`.
pub open spec fn parse_batch_response(s: Seq<u8>) -> wire::Parsed<Seq<ResponseView>> {
    if s.len() < 4 {
        wire::Parsed::More((4 - s.len()) as nat)
    } else {
        let count = le::le32_value(s.subrange(0, 4));
        if count > MAX_BATCH {
            wire::Parsed::Fail(ProtoError::BatchResponseTooLarge(count as u32))
        } else {
            prepend(Seq::empty(), 4, parse_responses(s.skip(4), count as nat))
        }
    }
}

/// Whether a reader's outcome is what the bytes call for.
pub open spec fn reads_all<T: View>(r: Read<Vec<T>>, p: wire::Parsed<Seq<T::V>>) -> bool {
    match r {
        Read::Done(v, n) => p == wire::Parsed::Done(v@.map_values(|x: T| x@), n as nat),
        Read::More(n) => p == wire::Parsed::<Seq<T::V>>::More(n as nat),
        Read::Fail(e) => p == wire::Parsed::<Seq<T::V>>::Fail(e),
    }
}

/// Writes a batch request.
pub fn write_batch_request(items: &[BatchItem]) -> (r: Result<Vec<u8>, ProtoError>)
    ensures
        match r {
            Ok(out) => items@.len() <= MAX_BATCH && out@ == batch_request_bytes(items_view(items@)),
            Err(e) => items@.len() > MAX_BATCH && e == ProtoError::BatchTooLarge(items.len()),
        },
{
    if items.len() as u64 > MAX_BATCH as u64 {
        return Err(ProtoError::BatchTooLarge(items.len()));
    }
    let mut out: Vec<u8> = Vec::new();
    out.push(PROTO_VERSION);
    out.push(OP_TTS_BATCH);
    le::put_u32(&mut out, items.len() as u32);
    let ghost head = seq![PROTO_VERSION, OP_TTS_BATCH] + wire::prefix(items@.len());
    assert(out@ =~= head);
    let ghost views = items_view(items@);
    for i in 0..items.len()
        invariant
            views == items_view(items@),
            out@ =~= head + items_bytes(views.take(i as int)),
    {
        item::put_item(&mut out, &items[i].json, &items[i].audio);
        assert(views.take(i + 1).drop_last() =~= views.take(i as int));
        assert(views.take(i + 1).last() == items@[i as int]@);
    }
    assert(views.take(items@.len() as int) =~= views);
    Ok(out)
}

/// Writes a batch response. Of the number of responses only the low 32 bits are
/// kept.
pub fn write_batch_response(responses: &[Response]) -> (out: Vec<u8>)
    ensures
        out@ == batch_response_bytes(responses_view(responses@)),
{
    let mut out: Vec<u8> = Vec::new();
    let n: u32 = ((responses.len() as u64) % 0x1_0000_0000) as u32;
    le::put_u32(&mut out, n);
    let ghost head = wire::prefix(responses@.len());
    assert(out@ =~= head);
    let ghost views = responses_view(responses@);
    for i in 0..responses.len()
        invariant
            views == responses_view(responses@),
            out@ =~= head + responses_bytes(views.take(i as int)),
    {
        frame::put_tagged(&mut out, responses[i].status, &responses[i].payload);
        assert(views.take(i + 1).drop_last() =~= views.take(i as int));
        assert(views.take(i + 1).last() == responses@[i as int]@);
    }
    assert(views.take(responses@.len() as int) =~= views);
    out
}

/// The items at the places that were found.
spec fn spans_view(spans: Seq<ItemSpan>, s: Seq<u8>) -> Seq<BatchItemView> {
    spans.map_values(|p: ItemSpan| p.item(s))
}

/// Reads the body of a batch request, behind the version and the op.
pub fn read_batch_request_body(input: &[u8]) -> (r: Read<Vec<BatchItem>>)
    ensures
        reads_all(r, parse_batch_request_body(input@)),
{
    if input.len() < 4 {
        return Read::More(4 - input.len());
    }
    let count = le::get_u32(input, 0);
    if count > MAX_BATCH {
        return Read::Fail(ProtoError::BatchFrameTooLarge(count));
    }
    let mut at: usize = 4;
    let mut spans: Vec<ItemSpan> = Vec::new();
    let ghost whole = parse_items(input@.skip(4), count as nat);
    proof {
        assert(spans_view(spans@, input@) =~= Seq::<BatchItemView>::empty());
        assert(whole =~= prepend(Seq::empty(), 0, whole));
    }
    for i in 0..count
        invariant
            count <= MAX_BATCH,
            4 <= at <= input@.len(),
            whole == parse_items(input@.skip(4), count as nat),
            parse_batch_request_body(input@) == prepend(Seq::empty(), 4, whole),
            whole =~= prepend(
                spans_view(spans@, input@),
                (at - 4) as nat,
                parse_items(input@.skip(at as int), (count - i) as nat),
            ),
            forall|k: int| 0 <= k < spans@.len() ==> (#[trigger] spans@[k]).within(input@),
    {
        match item::find_item(input, at, Part::BatchJson, Part::BatchAudio) {
            Found::More(n) => return Read::More(n),
            Found::Fail(e) => return Read::Fail(e),
            Found::Done(span) => {
                let next: usize = span.audio.1;
                proof {
                    assert(input@.skip(at as int).skip(next - at) =~= input@.skip(next as int));
                    assert(spans_view(spans@.push(span), input@) =~= spans_view(spans@, input@)
                        + seq![span.item(input@)]);
                    let tail = parse_items(input@.skip(next as int), (count - i - 1) as nat);
                    if let wire::Parsed::Done(more, n) = tail {
                        assert(spans_view(spans@, input@) + (seq![span.item(input@)] + more)
                            =~= spans_view(spans@.push(span), input@) + more);
                    }
                }
                spans.push(span);
                at = next;
            },
        }
    }
    let mut items: Vec<BatchItem> = Vec::new();
    for k in 0..spans.len()
        invariant
            items@.len() == k,
            forall|j: int| 0 <= j < k ==> (#[trigger] items@[j])@ == spans@[j].item(input@),
            forall|j: int| 0 <= j < spans@.len() ==> (#[trigger] spans@[j]).within(input@),
    {
        let it = spans[k].copy(input);
        items.push(it);
    }
    assert(items@.map_values(|x: BatchItem| x@) =~= spans_view(spans@, input@));
    Read::Done(items, at)
}

/// Where a response's payload lies.
struct ResponseSpan {
    status: u8,
    from: usize,
    to: usize,
}

/// The responses at the places that were found.
spec fn response_spans_view(spans: Seq<ResponseSpan>, s: Seq<u8>) -> Seq<ResponseView> {
    spans.map_values(
        |p: ResponseSpan|
            ResponseView { status: p.status, payload: s.subrange(p.from as int, p.to as int) },
    )
}

/// Reads a batch response.
pub fn read_batch_response(input: &[u8]) -> (r: Read<Vec<Response>>)
    ensures
        reads_all(r, parse_batch_response(input@)),
{
    if input.len() < 4 {
        return Read::More(4 - input.len());
    }
    let count = le::get_u32(input, 0);
    if count > MAX_BATCH {
        return Read::Fail(ProtoError::BatchResponseTooLarge(count));
    }
    let mut at: usize = 4;
    let mut spans: Vec<ResponseSpan> = Vec::new();
    let ghost whole = parse_responses(input@.skip(4), count as nat);
    proof {
        assert(response_spans_view(spans@, input@) =~= Seq::<ResponseView>::empty());
        assert(whole =~= prepend(Seq::empty(), 0, whole));
    }
    for i in 0..count
        invariant
            count <= MAX_BATCH,
            4 <= at <= input@.len(),
            whole == parse_responses(input@.skip(4), count as nat),
            parse_batch_response(input@) == prepend(Seq::empty(), 4, whole),
            whole =~= prepend(
                response_spans_view(spans@, input@),
                (at - 4) as nat,
                parse_responses(input@.skip(at as int), (count - i) as nat),
            ),
            forall|k: int|
                0 <= k < spans@.len() ==> (#[trigger] spans@[k]).from <= spans@[k].to
                    <= input@.len(),
    {
        match frame::find_tagged(input, at, Part::BatchResponse) {
            Tagged::More(n) => return Read::More(n),
            Tagged::Fail(e) => return Read::Fail(e),
            Tagged::Done(status, from, to) => {
                let span = ResponseSpan { status, from, to };
                proof {
                    let view = ResponseView {
                        status,
                        payload: input@.subrange(from as int, to as int),
                    };
                    assert(input@.skip(at as int).skip(to - at) =~= input@.skip(to as int));
                    assert(response_spans_view(spans@.push(span), input@) =~= response_spans_view(
                        spans@,
                        input@,
                    ) + seq![view]);
                    let tail = parse_responses(input@.skip(to as int), (count - i - 1) as nat);
                    if let wire::Parsed::Done(more, n) = tail {
                        assert(response_spans_view(spans@, input@) + (seq![view] + more)
                            =~= response_spans_view(spans@.push(span), input@) + more);
                    }
                }
                spans.push(span);
                at = to;
            },
        }
    }
    let mut responses: Vec<Response> = Vec::new();
    for k in 0..spans.len()
        invariant
            responses@.len() == k,
            forall|j: int|
                0 <= j < k ==> (#[trigger] responses@[j])@ == response_spans_view(
                    spans@,
                    input@,
                )[j],
            forall|j: int|
                0 <= j < spans@.len() ==> (#[trigger] spans@[j]).from <= spans@[j].to
                    <= input@.len(),
    {
        let span = &spans[k];
        let payload = Bytes::copy_from_slice(
            vstd::slice::slice_subrange(input, span.from, span.to),
        );
        responses.push(Response { status: span.status, payload });
    }
    assert(responses@.map_values(|x: Response| x@) =~= response_spans_view(spans@, input@));
    Read::Done(responses, at)
}

/// The bytes of items begin with those of the first.
proof fn items_bytes_first(items: Seq<BatchItemView>)
    requires
        items.len() > 0,
    ensures
        items_bytes(items) == item::item_bytes(items[0]) + items_bytes(items.skip(1)),
    decreases items.len(),
{
    if items.len() == 1 {
        assert(items.drop_last() =~= Seq::<BatchItemView>::empty());
        assert(items.skip(1) =~= Seq::<BatchItemView>::empty());
        assert(items_bytes(items.skip(1)) =~= Seq::<u8>::empty());
        assert(items_bytes(items) =~= item::item_bytes(items[0]));
    } else {
        items_bytes_first(items.drop_last());
        assert(items.drop_last().skip(1) =~= items.skip(1).drop_last());
        assert(items_bytes(items) =~= item::item_bytes(items[0]) + items_bytes(items.skip(1)));
    }
}

/// The bytes of responses begin with those of the first.
proof fn responses_bytes_first(responses: Seq<ResponseView>)
    requires
        responses.len() > 0,
    ensures
        responses_bytes(responses) == frame::response_bytes(responses[0]) + responses_bytes(
            responses.skip(1),
        ),
    decreases responses.len(),
{
    if responses.len() == 1 {
        assert(responses.drop_last() =~= Seq::<ResponseView>::empty());
        assert(responses.skip(1) =~= Seq::<ResponseView>::empty());
        assert(responses_bytes(responses.skip(1)) =~= Seq::<u8>::empty());
        assert(responses_bytes(responses) =~= frame::response_bytes(responses[0]));
    } else {
        responses_bytes_first(responses.drop_last());
        assert(responses.drop_last().skip(1) =~= responses.skip(1).drop_last());
        assert(responses_bytes(responses) =~= frame::response_bytes(responses[0])
            + responses_bytes(responses.skip(1)));
    }
}

/// Whether a reader accepts these items.
pub open spec fn items_fit(items: Seq<BatchItemView>) -> bool {
    forall|i: int|
        0 <= i < items.len() ==> item::fits(#[trigger] items[i], Part::BatchJson, Part::BatchAudio)
}

/// Whether a reader accepts these responses.
pub open spec fn responses_fit(responses: Seq<ResponseView>) -> bool {
    forall|i: int|
        0 <= i < responses.len() ==> (#[trigger] responses[i]).payload.len()
            <= Part::BatchResponse.limit()
}

/// The items with empty audio taken for none.
pub open spec fn canonical_items(items: Seq<BatchItemView>) -> Seq<BatchItemView> {
    items.map_values(|i: BatchItemView| item::canonical(i))
}

proof fn items_read_back(items: Seq<BatchItemView>, rest: Seq<u8>)
    requires
        items_fit(items),
    ensures
        parse_items(items_bytes(items) + rest, items.len()) == wire::Parsed::Done(
            canonical_items(items),
            items_bytes(items).len(),
        ),
    decreases items.len(),
{
    if items.len() == 0 {
        assert(canonical_items(items) =~= Seq::empty());
    } else {
        let first = item::item_bytes(items[0]);
        let more = items.skip(1);
        items_bytes_first(items);
        assert forall|i: int| 0 <= i < more.len() implies item::fits(
            #[trigger] more[i],
            Part::BatchJson,
            Part::BatchAudio,
        ) by {
            assert(more[i] == items[i + 1]);
        }
        items_read_back(more, rest);
        item::item_reads_back(
            items[0],
            Part::BatchJson,
            Part::BatchAudio,
            items_bytes(more) + rest,
        );
        let s = items_bytes(items) + rest;
        assert(s =~= first + (items_bytes(more) + rest));
        assert(s.skip(first.len() as int) =~= items_bytes(more) + rest);
        assert(canonical_items(items) =~= seq![item::canonical(items[0])] + canonical_items(more));
    }
}

proof fn responses_read_back(responses: Seq<ResponseView>, rest: Seq<u8>)
    requires
        responses_fit(responses),
    ensures
        parse_responses(responses_bytes(responses) + rest, responses.len()) == wire::Parsed::Done(
            responses,
            responses_bytes(responses).len(),
        ),
    decreases responses.len(),
{
    if responses.len() == 0 {
        assert(responses =~= Seq::empty());
    } else {
        let first = frame::response_bytes(responses[0]);
        let more = responses.skip(1);
        responses_bytes_first(responses);
        assert forall|i: int| 0 <= i < more.len() implies (#[trigger] more[i]).payload.len()
            <= Part::BatchResponse.limit() by {
            assert(more[i] == responses[i + 1]);
        }
        responses_read_back(more, rest);
        frame::tagged_reads_back(
            responses[0].status,
            responses[0].payload,
            Part::BatchResponse,
            responses_bytes(more) + rest,
        );
        let s = responses_bytes(responses) + rest;
        assert(s =~= first + (responses_bytes(more) + rest));
        assert(s.skip(first.len() as int) =~= responses_bytes(more) + rest);
        assert(responses =~= seq![responses[0]] + more);
    }
}

/// Reading a batch request gives back the items that were written, in their
/// order, whatever follows. The body stands behind two bytes.
pub proof fn batch_request_reads_back(items: Seq<BatchItemView>, rest: Seq<u8>)
    requires
        items.len() <= MAX_BATCH,
        items_fit(items),
    ensures
        parse_batch_request_body((batch_request_bytes(items) + rest).skip(2))
            == wire::Parsed::Done(
            canonical_items(items),
            (batch_request_bytes(items).len() - 2) as nat,
        ),
{
    let s = (batch_request_bytes(items) + rest).skip(2);
    le::le32_reads_back(items.len() as int);
    assert(s.subrange(0, 4) =~= wire::prefix(items.len()));
    assert(s.skip(4) =~= items_bytes(items) + rest);
    items_read_back(items, rest);
    assert(Seq::<BatchItemView>::empty() + canonical_items(items) =~= canonical_items(items));
}

/// Reading a batch response gives back the responses that were written, in
/// their order, whatever follows.
pub proof fn batch_response_reads_back(responses: Seq<ResponseView>, rest: Seq<u8>)
    requires
        responses.len() <= MAX_BATCH,
        responses_fit(responses),
    ensures
        parse_batch_response(batch_response_bytes(responses) + rest) == wire::Parsed::Done(
            responses,
            batch_response_bytes(responses).len(),
        ),
{
    let s = batch_response_bytes(responses) + rest;
    le::le32_reads_back(responses.len() as int);
    assert(s.subrange(0, 4) =~= wire::prefix(responses.len()));
    assert(s.skip(4) =~= responses_bytes(responses) + rest);
    responses_read_back(responses, rest);
    assert(Seq::<ResponseView>::empty() + responses =~= responses);
}

proof fn items_write_back(s: Seq<u8>, count: nat)
    ensures
        match parse_items(s, count) {
            wire::Parsed::Done(items, n) => n <= s.len() && items.len() == count && items_fit(items)
                && canonical_items(items) == items && items_bytes(items) == s.take(n as int),
            _ => true,
        },
    decreases count,
{
    if count == 0 {
        assert(canonical_items(Seq::empty()) =~= Seq::empty());
        assert(s.take(0) =~= Seq::<u8>::empty());
    } else {
        item::item_writes_back(s, Part::BatchJson, Part::BatchAudio);
        if let wire::Parsed::Done(first, n) = item::parse_item(
            s,
            Part::BatchJson,
            Part::BatchAudio,
        ) {
            let tail = s.skip(n as int);
            items_write_back(tail, (count - 1) as nat);
            if let wire::Parsed::Done(more, m) = parse_items(tail, (count - 1) as nat) {
                let items = seq![first] + more;
                assert(items.skip(1) =~= more);
                items_bytes_first(items);
                assert forall|i: int| 0 <= i < items.len() implies item::fits(
                    #[trigger] items[i],
                    Part::BatchJson,
                    Part::BatchAudio,
                ) by {
                    if i > 0 {
                        assert(items[i] == more[i - 1]);
                    }
                }
                assert(canonical_items(items) =~= seq![first] + canonical_items(more));
                assert(s.take(n as int) + tail.take(m as int) =~= s.take((n + m) as int));
            }
        }
    }
}

proof fn responses_write_back(s: Seq<u8>, count: nat)
    ensures
        match parse_responses(s, count) {
            wire::Parsed::Done(responses, n) => n <= s.len() && responses.len() == count
                && responses_fit(responses) && responses_bytes(responses) == s.take(n as int),
            _ => true,
        },
    decreases count,
{
    if count == 0 {
        assert(s.take(0) =~= Seq::<u8>::empty());
    } else {
        frame::tagged_writes_back(s, Part::BatchResponse);
        if let wire::Parsed::Done(first, n) = frame::parse_response_as(s, Part::BatchResponse) {
            let tail = s.skip(n as int);
            responses_write_back(tail, (count - 1) as nat);
            if let wire::Parsed::Done(more, m) = parse_responses(tail, (count - 1) as nat) {
                let responses = seq![first] + more;
                assert(responses.skip(1) =~= more);
                responses_bytes_first(responses);
                assert forall|i: int| 0 <= i < responses.len() implies (
                #[trigger] responses[i]).payload.len() <= Part::BatchResponse.limit() by {
                    if i > 0 {
                        assert(responses[i] == more[i - 1]);
                    }
                }
                assert(s.take(n as int) + tail.take(m as int) =~= s.take((n + m) as int));
            }
        }
    }
}

/// The bytes that a batch was read from are those it is written as.
pub proof fn batch_writes_back(s: Seq<u8>)
    ensures
        match parse_batch_request_body(s) {
            wire::Parsed::Done(items, n) => n <= s.len() && items.len() <= MAX_BATCH
                && batch_request_bytes(items) == seq![PROTO_VERSION, OP_TTS_BATCH] + s.take(
                n as int,
            ),
            _ => true,
        },
        match parse_batch_response(s) {
            wire::Parsed::Done(responses, n) => n <= s.len() && responses.len() <= MAX_BATCH
                && batch_response_bytes(responses) == s.take(n as int),
            _ => true,
        },
{
    if s.len() >= 4 {
        let head = s.subrange(0, 4);
        let count = le::le32_value(head);
        le::le32_writes_back(head);
        if count <= MAX_BATCH {
            items_write_back(s.skip(4), count as nat);
            if let wire::Parsed::Done(items, n) = parse_items(s.skip(4), count as nat) {
                assert(Seq::<BatchItemView>::empty() + items =~= items);
                assert(batch_request_bytes(items) =~= seq![PROTO_VERSION, OP_TTS_BATCH] + s.take(
                    (4 + n) as int,
                ));
            }
            responses_write_back(s.skip(4), count as nat);
            if let wire::Parsed::Done(responses, n) = parse_responses(s.skip(4), count as nat) {
                assert(Seq::<ResponseView>::empty() + responses =~= responses);
                assert(batch_response_bytes(responses) =~= s.take((4 + n) as int));
            }
        }
    }
}

proof fn items_are_exact(s: Seq<u8>, t: Seq<u8>, count: nat)
    ensures
        wire::extends(parse_items(s, count), s.len(), t.len(), parse_items(s + t, count)),
    decreases count,
{
    if count > 0 {
        item::item_is_exact(s, t, Part::BatchJson, Part::BatchAudio);
        match item::parse_item(s, Part::BatchJson, Part::BatchAudio) {
            wire::Parsed::Done(first, n) => {
                item::item_writes_back(s, Part::BatchJson, Part::BatchAudio);
                assert((s + t).skip(n as int) =~= s.skip(n as int) + t);
                items_are_exact(s.skip(n as int), t, (count - 1) as nat);
            },
            wire::Parsed::More(n) => {
                if t.len() == n {
                    item::item_writes_back(s + t, Part::BatchJson, Part::BatchAudio);
                    if let wire::Parsed::Done(first, used) = item::parse_item(
                        s + t,
                        Part::BatchJson,
                        Part::BatchAudio,
                    ) {
                        let tail = (s + t).skip(used as int);
                        assert(tail =~= Seq::<u8>::empty());
                        items_need_bytes(tail, (count - 1) as nat);
                    }
                }
            },
            wire::Parsed::Fail(e) => {},
        }
    }
}

/// Of no bytes at all, no items are read but zero of them.
proof fn items_need_bytes(s: Seq<u8>, count: nat)
    requires
        s.len() == 0,
    ensures
        count == 0 ==> parse_items(s, count) == wire::Parsed::Done(
            Seq::<BatchItemView>::empty(),
            0,
        ),
        count > 0 ==> parse_items(s, count) == wire::Parsed::<Seq<BatchItemView>>::More(4),
{
}

proof fn responses_are_exact(s: Seq<u8>, t: Seq<u8>, count: nat)
    ensures
        wire::extends(parse_responses(s, count), s.len(), t.len(), parse_responses(s + t, count)),
    decreases count,
{
    if count > 0 {
        frame::tagged_is_exact(s, t, Part::BatchResponse);
        match frame::parse_response_as(s, Part::BatchResponse) {
            wire::Parsed::Done(first, n) => {
                frame::tagged_writes_back(s, Part::BatchResponse);
                assert((s + t).skip(n as int) =~= s.skip(n as int) + t);
                responses_are_exact(s.skip(n as int), t, (count - 1) as nat);
            },
            wire::Parsed::More(n) => {
                if t.len() == n {
                    if let wire::Parsed::Done(first, used) = frame::parse_response_as(
                        s + t,
                        Part::BatchResponse,
                    ) {
                        let tail = (s + t).skip(used as int);
                        assert(tail =~= Seq::<u8>::empty());
                        responses_need_bytes(tail, (count - 1) as nat);
                    }
                }
            },
            wire::Parsed::Fail(e) => {},
        }
    }
}

/// Of no bytes at all, no responses are read but zero of them.
proof fn responses_need_bytes(s: Seq<u8>, count: nat)
    requires
        s.len() == 0,
    ensures
        count == 0 ==> parse_responses(s, count) == wire::Parsed::Done(
            Seq::<ResponseView>::empty(),
            0,
        ),
        count > 0 ==> parse_responses(s, count) == wire::Parsed::<Seq<ResponseView>>::More(1),
{
}

/// Reading a batch decides nothing too early and asks for nothing beyond it.
pub proof fn batch_is_exact(s: Seq<u8>, t: Seq<u8>)
    ensures
        wire::extends(
            parse_batch_request_body(s),
            s.len(),
            t.len(),
            parse_batch_request_body(s + t),
        ),
        wire::extends(parse_batch_response(s), s.len(), t.len(), parse_batch_response(s + t)),
{
    if s.len() >= 4 {
        let count = le::le32_value(s.subrange(0, 4));
        assert((s + t).subrange(0, 4) =~= s.subrange(0, 4));
        assert((s + t).skip(4) =~= s.skip(4) + t);
        if count <= MAX_BATCH {
            items_are_exact(s.skip(4), t, count as nat);
            responses_are_exact(s.skip(4), t, count as nat);
        }
    } else if t.len() == 4 - s.len() {
        let count = le::le32_value((s + t).subrange(0, 4));
        assert((s + t).skip(4) =~= Seq::<u8>::empty());
        if count <= MAX_BATCH {
            items_need_bytes((s + t).skip(4), count as nat);
        }
    }
}

/// A batch request is the version, the op for batches, the number of items, and
/// the items one after the other; a batch response is the number of responses,
/// and the responses one after the other.
pub proof fn batch_layout(items: Seq<BatchItemView>, responses: Seq<ResponseView>)
    requires
        items.len() <= 1024,
        responses.len() <= 1024,
    ensures
        ({
            let b = batch_request_bytes(items);
            &&& b[0] == 1 && b[1] == 4
            &&& b[2] + 256 * b[3] + 65536 * b[4] + 16777216 * b[5] == items.len()
            &&& b.skip(6) == items_bytes(items)
        }),
        ({
            let b = batch_response_bytes(responses);
            &&& b[0] + 256 * b[1] + 65536 * b[2] + 16777216 * b[3] == responses.len()
            &&& b.skip(4) == responses_bytes(responses)
        }),
        items.len() == 0 ==> items_bytes(items).len() == 0,
        items.len() > 0 ==> items_bytes(items) == item::item_bytes(items[0]) + items_bytes(
            items.skip(1),
        ),
        responses.len() == 0 ==> responses_bytes(responses).len() == 0,
        responses.len() > 0 ==> responses_bytes(responses) == frame::response_bytes(responses[0])
            + responses_bytes(responses.skip(1)),
{
    le::le32_spells(items.len() as int);
    le::le32_spells(responses.len() as int);
    assert(batch_request_bytes(items).skip(6) =~= items_bytes(items));
    assert(batch_response_bytes(responses).skip(4) =~= responses_bytes(responses));
    if items.len() > 0 {
        items_bytes_first(items);
    }
    if responses.len() > 0 {
        responses_bytes_first(responses);
    }
}

/// A batch that announces more than 1024 elements is refused, naming how many,
/// and no other is refused for its number.
pub proof fn batches_have_limits(s: Seq<u8>, n: int)
    requires
        s.len() >= 4,
        n == s[0] + 256 * s[1] + 65536 * s[2] + 16777216 * s[3],
    ensures
        n > 1024 <==> parse_batch_request_body(s) == wire::Parsed::<Seq<BatchItemView>>::Fail(
            ProtoError::BatchFrameTooLarge(n as u32),
        ),
        n > 1024 <==> parse_batch_response(s) == wire::Parsed::<Seq<ResponseView>>::Fail(
            ProtoError::BatchResponseTooLarge(n as u32),
        ),
{
    assert(s.subrange(0, 4) =~= seq![s[0], s[1], s[2], s[3]]);
    le::bytes_spell(s[0], s[1], s[2], s[3]);
    if n <= 1024 {
        element_errors(s.skip(4), n as nat);
    }
}

/// Reading elements is refused for an element, not for their number.
proof fn element_errors(s: Seq<u8>, count: nat)
    ensures
        parse_items(s, count) matches wire::Parsed::Fail(e) ==> e is TooLarge,
        parse_responses(s, count) matches wire::Parsed::Fail(e) ==> e is TooLarge,
    decreases count,
{
    if count > 0 {
        if let wire::Parsed::Done(_, n) = item::parse_item(s, Part::BatchJson, Part::BatchAudio) {
            element_errors(s.skip(n as int), (count - 1) as nat);
        }
        if let wire::Parsed::Done(_, n) = frame::parse_response_as(s, Part::BatchResponse) {
            element_errors(s.skip(n as int), (count - 1) as nat);
        }
    }
}

/// The contents of elements are those of each element, in their order.
pub proof fn views_are_by_element(items: Seq<BatchItem>, responses: Seq<Response>)
    ensures
        items_view(items).len() == items.len(),
        forall|i: int| 0 <= i < items.len() ==> #[trigger] items_view(items)[i] == items[i]@,
        responses_view(responses).len() == responses.len(),
        forall|i: int|
            0 <= i < responses.len() ==> #[trigger] responses_view(responses)[i] == responses[i]@,
{
}

/// A batch is written if and only if it has at most 1024 items. It is then read,
/// whatever follows it, with as many items, each at its own place with its own
/// JSON and audio, where empty audio counts as none.
pub proof fn written_batches_are_read(
    items: &[BatchItem],
    w: Result<Vec<u8>, ProtoError>,
    rest: Seq<u8>,
    input: &[u8],
    r: Read<Vec<BatchItem>>,
    i: int,
)
    requires
        call_ensures(write_batch_request, (items,), w),
        w matches Ok(out) ==> input@ == (out@ + rest).skip(2),
        call_ensures(read_batch_request_body, (input,), r),
        forall|k: int|
            0 <= k < items@.len() ==> buffer::bytes_of((#[trigger] items@[k]).json).len() <= 1024
                * 1024,
        forall|k: int|
            0 <= k < items@.len() ==> ((#[trigger] items@[k]).audio matches Some(a)
                ==> buffer::bytes_of(a).len() <= 256 * 1024 * 1024),
        0 <= i < items@.len(),
    ensures
        w is Ok <==> items@.len() <= 1024,
        w matches Err(e) ==> e == ProtoError::BatchTooLarge(items@.len() as usize),
        w matches Ok(out) ==> out@[0] == 1 && out@[1] == 4 && (r matches Read::Done(back, n) && n
            == out@.len() - 2 && back@.len() == items@.len() && buffer::bytes_of(back@[i].json)
            == buffer::bytes_of(items@[i].json) && (back@[i].audio is Some <==> items@[i].audio is Some
            && buffer::bytes_of(items@[i].audio->0).len() > 0) && (back@[i].audio is Some
            ==> buffer::bytes_of(back@[i].audio->0) == buffer::bytes_of(items@[i].audio->0))),
{
    if let Ok(out) = w {
        let views = items_view(items@);
        assert forall|k: int| 0 <= k < views.len() implies item::fits(
            #[trigger] views[k],
            Part::BatchJson,
            Part::BatchAudio,
        ) by {
            assert(views[k] == items@[k]@);
        }
        batch_request_reads_back(views, rest);
        batch_layout(views, Seq::empty());
        if let Read::Done(back, n) = r {
            let found = back@.map_values(|x: BatchItem| x@);
            assert(found == canonical_items(views));
            assert(found[i] == back@[i]@);
            assert(canonical_items(views)[i] == item::canonical(items@[i]@));
        }
    }
}

/// The responses to a batch that were written are read, whatever follows them,
/// each at its own place with its own status and payload.
pub proof fn written_answers_are_read(
    responses: &[Response],
    out: Vec<u8>,
    rest: Seq<u8>,
    input: &[u8],
    r: Read<Vec<Response>>,
    i: int,
)
    requires
        call_ensures(write_batch_response, (responses,), out),
        input@ == out@ + rest,
        call_ensures(read_batch_response, (input,), r),
        responses@.len() <= 1024,
        forall|k: int|
            0 <= k < responses@.len() ==> buffer::bytes_of((#[trigger] responses@[k]).payload).len()
                <= 512 * 1024 * 1024,
        0 <= i < responses@.len(),
    ensures
        r matches Read::Done(back, n) && n == out@.len() && back@.len() == responses@.len()
            && back@[i].status == responses@[i].status && buffer::bytes_of(back@[i].payload)
            == buffer::bytes_of(responses@[i].payload),
{
    let views = responses_view(responses@);
    assert forall|k: int| 0 <= k < views.len() implies (#[trigger] views[k]).payload.len()
        <= Part::BatchResponse.limit() by {
        assert(views[k] == responses@[k]@);
    }
    batch_response_reads_back(views, rest);
    if let Read::Done(back, n) = r {
        let found = back@.map_values(|x: Response| x@);
        assert(found == views);
        assert(found[i] == back@[i]@);
        assert(views[i] == responses@[i]@);
    }
}

proof fn items_fail_behind_others(
    items: Seq<BatchItemView>,
    t: Seq<u8>,
    count: nat,
    e: ProtoError,
)
    requires
        items_fit(items),
        items.len() < count,
        item::parse_item(t, Part::BatchJson, Part::BatchAudio) == wire::Parsed::<
            BatchItemView,
        >::Fail(e),
    ensures
        parse_items(items_bytes(items) + t, count) == wire::Parsed::<Seq<BatchItemView>>::Fail(e),
    decreases items.len(),
{
    let s = items_bytes(items) + t;
    if items.len() == 0 {
        assert(s =~= t);
    } else {
        let first = item::item_bytes(items[0]);
        let more = items.skip(1);
        items_bytes_first(items);
        assert forall|i: int| 0 <= i < more.len() implies item::fits(
            #[trigger] more[i],
            Part::BatchJson,
            Part::BatchAudio,
        ) by {
            assert(more[i] == items[i + 1]);
        }
        items_fail_behind_others(more, t, (count - 1) as nat, e);
        item::item_reads_back(items[0], Part::BatchJson, Part::BatchAudio, items_bytes(more) + t);
        assert(s =~= first + (items_bytes(more) + t));
        assert(s.skip(first.len() as int) =~= items_bytes(more) + t);
    }
}

proof fn responses_fail_behind_others(
    responses: Seq<ResponseView>,
    t: Seq<u8>,
    count: nat,
    e: ProtoError,
)
    requires
        responses_fit(responses),
        responses.len() < count,
        frame::parse_response_as(t, Part::BatchResponse) == wire::Parsed::<ResponseView>::Fail(e),
    ensures
        parse_responses(responses_bytes(responses) + t, count) == wire::Parsed::<
            Seq<ResponseView>,
        >::Fail(e),
    decreases responses.len(),
{
    let s = responses_bytes(responses) + t;
    if responses.len() == 0 {
        assert(s =~= t);
    } else {
        let first = frame::response_bytes(responses[0]);
        let more = responses.skip(1);
        responses_bytes_first(responses);
        assert forall|i: int| 0 <= i < more.len() implies (#[trigger] more[i]).payload.len()
            <= Part::BatchResponse.limit() by {
            assert(more[i] == responses[i + 1]);
        }
        responses_fail_behind_others(more, t, (count - 1) as nat, e);
        frame::tagged_reads_back(
            responses[0].status,
            responses[0].payload,
            Part::BatchResponse,
            responses_bytes(more) + t,
        );
        assert(s =~= first + (responses_bytes(more) + t));
        assert(s.skip(first.len() as int) =~= responses_bytes(more) + t);
    }
}

/// A batch with an item whose JSON or audio is announced as too long is refused
/// for that, as part of a batch, wherever in the batch the item stands.
pub proof fn oversized_items_are_refused(
    items: Seq<BatchItemView>,
    count: nat,
    json: Seq<u8>,
    length: Seq<u8>,
    rest: Seq<u8>,
)
    requires
        items_fit(items),
        items.len() < count <= 1024,
        json.len() <= 1024 * 1024,
        length.len() == 4,
    ensures
        ({
            let n = length[0] + 256 * length[1] + 65536 * length[2] + 16777216 * length[3];
            let head = le::le32(count as int) + items_bytes(items);
            &&& n > 1024 * 1024 ==> parse_batch_request_body(head + (length + rest))
                == wire::Parsed::<Seq<BatchItemView>>::Fail(
                ProtoError::TooLarge(Part::BatchJson, n as u32),
            )
            &&& n > 256 * 1024 * 1024 ==> parse_batch_request_body(
                head + (wire::part_bytes(json) + (length + rest)),
            ) == wire::Parsed::<Seq<BatchItemView>>::Fail(
                ProtoError::TooLarge(Part::BatchAudio, n as u32),
            )
        }),
{
    let n = length[0] + 256 * length[1] + 65536 * length[2] + 16777216 * length[3];
    let head = le::le32(count as int) + items_bytes(items);
    le::le32_reads_back(count as int);
    let t = length + rest;
    if n > 1024 * 1024 {
        let s = head + t;
        assert(s.subrange(0, 4) =~= le::le32(count as int));
        assert(s.skip(4) =~= items_bytes(items) + t);
        wire::part_is_what_is_announced(t, Part::BatchJson, n);
        items_fail_behind_others(items, t, count, ProtoError::TooLarge(Part::BatchJson, n as u32));
    }
    if n > 256 * 1024 * 1024 {
        let u = wire::part_bytes(json) + t;
        let s = head + u;
        assert(s.subrange(0, 4) =~= le::le32(count as int));
        assert(s.skip(4) =~= items_bytes(items) + u);
        wire::part_reads_back(json, Part::BatchJson, t);
        assert(u.skip(wire::part_bytes(json).len() as int) =~= t);
        wire::part_is_what_is_announced(t, Part::BatchAudio, n);
        items_fail_behind_others(items, u, count, ProtoError::TooLarge(Part::BatchAudio, n as u32));
    }
}

/// A batch response with a payload that is announced as too long is refused for
/// that, as part of a batch, wherever in the batch the payload stands.
pub proof fn oversized_responses_are_refused(
    responses: Seq<ResponseView>,
    count: nat,
    status: u8,
    length: Seq<u8>,
    rest: Seq<u8>,
)
    requires
        responses_fit(responses),
        responses.len() < count <= 1024,
        length.len() == 4,
        length[0] + 256 * length[1] + 65536 * length[2] + 16777216 * length[3] > 512 * 1024 * 1024,
    ensures
        ({
            let n = length[0] + 256 * length[1] + 65536 * length[2] + 16777216 * length[3];
            let head = le::le32(count as int) + responses_bytes(responses);
            parse_batch_response(head + (seq![status] + (length + rest))) == wire::Parsed::<
                Seq<ResponseView>,
            >::Fail(ProtoError::TooLarge(Part::BatchResponse, n as u32))
        }),
{
    let n = length[0] + 256 * length[1] + 65536 * length[2] + 16777216 * length[3];
    let head = le::le32(count as int) + responses_bytes(responses);
    let t = length + rest;
    let u = seq![status] + t;
    let s = head + u;
    le::le32_reads_back(count as int);
    assert(s.subrange(0, 4) =~= le::le32(count as int));
    assert(s.skip(4) =~= responses_bytes(responses) + u);
    assert(u.skip(1) =~= t);
    wire::part_is_what_is_announced(t, Part::BatchResponse, n);
    responses_fail_behind_others(
        responses,
        u,
        count,
        ProtoError::TooLarge(Part::BatchResponse, n as u32),
    );
}

} // verus!
