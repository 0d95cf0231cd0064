//! The request dispatcher: one response for every request.
//!
//! A caller that reads the body from a connection goes in steps: [`begin`]
//! answers at once or asks for the body, [`crate::guard::BodyBuffer::push`]
//! takes the body chunk by chunk and says when to give the read up, and
//! [`complete`] answers from what was read. [`dispatch`] does the same for a
//! request whose chunks are at hand.

use crate::guard::{after_chunks, check, joined, size_accepted};
use crate::guard::{lemma_buffer_bounded, lemma_buffer_holds_body, lemma_joined_grows};
use crate::guard::{BodyBuffer, BufferView, PAYLOAD_CEILING};
use crate::render::{body_outcome, render, renderer_of, select, Renderer};
use crate::response::{instructions, not_found, respond, too_large};
use crate::response::{instructions_response, not_found_response, outcome_response};
use crate::response::{too_large_response, Response, ResponseView, STATUS_OK};
use crate::route::{route, route_of, Method, Route};
use vstd::prelude::*;

verus! {

/// A request as the transport hands it over: the method, the path without
/// the query, the body size that was declared, if any, and the body in the
/// chunks in which it arrives.
#[derive(Clone, Debug, PartialEq, Eq)]
pub struct InboundRequest {
    pub method: Method,
    pub path: String,
    pub declared_body_size: Option<u64>,
    pub body: Vec<Vec<u8>>,
}

/// What is to be done once the head of a request is known.
#[derive(Clone, Debug, PartialEq, Eq)]
pub enum Step {
    /// Answer with this response; the body is not read.
    Respond(Response),
    /// Read the body, then render it with this renderer.
    ReadBody(Renderer),
}

/// A step as mathematical values.
pub enum StepView {
    Respond(ResponseView),
    ReadBody(Renderer),
}

impl View for Step {
    type V = StepView;

    open spec fn view(&self) -> StepView {
        match *self {
            Step::Respond(response) => StepView::Respond(response@),
            Step::ReadBody(renderer) => StepView::ReadBody(renderer),
        }
    }
}

/// The chunks of a body as mathematical values.
pub open spec fn chunks_view(body: Seq<Vec<u8>>) -> Seq<Seq<u8>> {
    Seq::new(body.len(), |i: int| body[i]@)
}

/// The step that the head of a request calls for: the usage text, a 404, a
/// 413 for a build route whose declared size is over the ceiling, or the
/// reading of the body.
pub open spec fn first_step(method: Method, path: Seq<char>, declared: Option<u64>) -> StepView {
    match renderer_of(route_of(method, path)) {
        Some(renderer) => if size_accepted(declared) {
            StepView::ReadBody(renderer)
        } else {
            StepView::Respond(too_large_response())
        },
        None => if route_of(method, path) == Route::Instructions {
            StepView::Respond(instructions_response())
        } else {
            StepView::Respond(not_found_response())
        },
    }
}

/// The response once the body was read: a 413 where the body went over the
/// ceiling, else what its rendering is answered with. `image` is what the
/// raster renderer gives; the other renderers do not look at it.
pub open spec fn last_step(renderer: Renderer, buffer: BufferView, image: Option<Seq<u8>>)
    -> ResponseView {
    if buffer.overflowed {
        too_large_response()
    } else {
        outcome_response(body_outcome(renderer, buffer.bytes, image))
    }
}

/// The response to a request with the given head and body. `image` is what
/// the raster renderer gives; only the raster route looks at it.
pub open spec fn response_of(
    method: Method,
    path: Seq<char>,
    declared: Option<u64>,
    body: Seq<u8>,
    image: Option<Seq<u8>>,
) -> ResponseView {
    match renderer_of(route_of(method, path)) {
        Some(renderer) => if !size_accepted(declared) || body.len() > PAYLOAD_CEILING {
            too_large_response()
        } else {
            outcome_response(body_outcome(renderer, body, image))
        },
        None => if route_of(method, path) == Route::Instructions {
            instructions_response()
        } else {
            not_found_response()
        },
    }
}

/// Decides from the head of a request what is done first. The payload guard
/// is asked before any of the body is read, and only for a build route.
pub fn begin(method: Method, path: &str, declared: Option<u64>) -> (step: Step)
    ensures
        step@ == first_step(method, path@, declared),
{
    let target = route(method, path);
    match select(target) {
        Some(renderer) => {
            if check(declared).accept {
                Step::ReadBody(renderer)
            } else {
                Step::Respond(too_large())
            }
        },
        None => {
            match target {
                Route::Instructions => Step::Respond(instructions()),
                _ => Step::Respond(not_found()),
            }
        },
    }
}

/// Answers a build request from what was read of its body.
pub fn complete(renderer: Renderer, buffer: BodyBuffer) -> (response: Response)
    ensures
        exists|image: Option<Seq<u8>>| response@ == last_step(renderer, buffer@, image),
        renderer != Renderer::Raster ==> response@ == last_step(renderer, buffer@, None),
        renderer == Renderer::Glyphs && response@.status == STATUS_OK ==> response@.body.len() > 0,
{
    match buffer.finish() {
        Some(body) => {
            let outcome = render(renderer, body.as_slice());
            proof {
                let image = choose|image: Option<Seq<u8>>|
                    outcome@ == body_outcome(renderer, body@, image);
                assert(outcome_response(outcome@) == last_step(renderer, buffer@, image));
            }
            respond(outcome)
        },
        None => {
            let response = too_large();
            assert(response@ == last_step(renderer, buffer@, None));
            response
        },
    }
}

/// Answers a request. The chunks of the body are taken in order and no
/// further than the ceiling allows; the response depends on them only through
/// the bytes that they join to.
pub fn dispatch(request: &InboundRequest) -> (response: Response)
    ensures
        exists|image: Option<Seq<u8>>|
            response@ == response_of(
                request.method,
                request.path@,
                request.declared_body_size,
                joined(chunks_view(request.body@)),
                image,
            ),
        renderer_of(route_of(request.method, request.path@)) != Some(Renderer::Raster)
            ==> response@ == response_of(
            request.method,
            request.path@,
            request.declared_body_size,
            joined(chunks_view(request.body@)),
            None,
        ),
        route_of(request.method, request.path@) == Route::BuildText && response@.status
            == STATUS_OK ==> response@.body.len() > 0,
{
    let ghost chunks = chunks_view(request.body@);
    match begin(request.method, request.path.as_str(), request.declared_body_size) {
        Step::Respond(response) => {
            assert(response@ == response_of(
                request.method,
                request.path@,
                request.declared_body_size,
                joined(chunks),
                None,
            ));
            response
        },
        Step::ReadBody(renderer) => {
            let mut buffer = BodyBuffer::new();
            let mut i: usize = 0;
            assert(chunks.take(0) =~= Seq::<Seq<u8>>::empty());
            while i < request.body.len()
                invariant
                    chunks == chunks_view(request.body@),
                    first_step(request.method, request.path@, request.declared_body_size)
                        == StepView::ReadBody(renderer),
                    i <= request.body@.len(),
                    buffer.wf(),
                    buffer@ == after_chunks(chunks.take(i as int)),
                    !buffer@.overflowed,
                decreases request.body@.len() - i,
            {
                let go_on = buffer.push(request.body[i].as_slice());
                proof {
                    assert(chunks.take(i + 1).drop_last() =~= chunks.take(i as int));
                    assert(chunks.take(i + 1).last() == request.body@[i as int]@);
                    lemma_buffer_holds_body(chunks.take(i + 1));
                    lemma_joined_grows(chunks, i + 1);
                }
                if !go_on {
                    let response = too_large();
                    assert(response@ == response_of(
                        request.method,
                        request.path@,
                        request.declared_body_size,
                        joined(chunks),
                        None,
                    ));
                    return response;
                }
                i = i + 1;
            }
            proof {
                assert(chunks.take(i as int) =~= chunks);
                lemma_buffer_holds_body(chunks);
                lemma_buffer_bounded(chunks);
            }
            let ghost read = buffer@;
            let response = complete(renderer, buffer);
            proof {
                let image = choose|image: Option<Seq<u8>>|
                    response@ == last_step(renderer, read, image);
                assert(response@ == response_of(
                    request.method,
                    request.path@,
                    request.declared_body_size,
                    joined(chunks),
                    image,
                ));
            }
            response
        },
    }
}

} // verus!
