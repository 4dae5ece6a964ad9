//! Fullscreen capture decisions: which screen a request addresses, and the
//! semantics of the capture-all batch, where a partial success is a
//! success and only total failure is an error. The grab primitive itself
//! is an external collaborator; these functions decide over the plain
//! values it reports.

use vstd::prelude::*;

use crate::config::Config;
use crate::config::spec_parse_format;
use crate::error::ScreenshotError;
use crate::persist::PreparedImage;
use crate::persist::RawFrame;
use crate::persist::prepare_image_file;
use crate::persist::spec_named_artifact;
use crate::persist::spec_prepared_outcome;
use crate::text::spec_decimal;
use crate::text::u64_to_string;

verus! {

/// Declares screenshots' Screen, one enumerated display, so that handles
/// to it can pass through verified code; the value itself is opaque here.
#[verifier::external_type_specification]
#[verifier::external_body]
pub struct ExScreen(screenshots::Screen);

/// Relies on screenshots' Screen::all: enumerates the machine's displays,
/// indexed from zero. What comes back depends on the machine's state.
#[verifier::external_body]
fn all_screens() -> (r: Result<Vec<screenshots::Screen>, String>) {
    match screenshots::Screen::all() {
        Ok(screens) => Ok(screens),
        Err(e) => Err(format!("{}", e)),
    }
}

/// Relies on screenshots' Screen::capture: grabs one display's current
/// contents as an RGBA8 buffer with its dimensions. What comes back
/// depends on what is on the screen.
#[verifier::external_body]
fn capture_screen(screen: &screenshots::Screen) -> (r: Result<RawFrame, String>) {
    match screen.capture() {
        Ok(image) => Ok(RawFrame {
            width: image.width(),
            height: image.height(),
            pixels: image.rgba().clone(),
        }),
        Err(e) => Err(format!("{}", e)),
    }
}

/// Decides which screen a fullscreen request addresses: an empty
/// enumeration is NoScreensFound, an index at or past the count is
/// ScreenNotFound carrying that index, anything else is accepted.
pub fn select_screen(screen_count: usize, screen_index: usize) -> (r: Result<(), ScreenshotError>)
    ensures
        screen_count == 0 ==> (r matches Err(e) && e is NoScreensFound),
        screen_count > 0 && screen_index >= screen_count ==> (r matches Err(e) && e matches
        ScreenshotError::ScreenNotFound(i) && i == screen_index),
        screen_index < screen_count ==> r is Ok,
{
    if screen_count == 0 {
        Err(ScreenshotError::NoScreensFound)
    } else if screen_index >= screen_count {
        Err(ScreenshotError::ScreenNotFound(screen_index))
    } else {
        Ok(())
    }
}

/// One fullscreen capture, from enumeration to encoded bytes; nothing is
/// written here. The ghost trace records what the machine reported — the
/// enumeration's count or error, then the grab's frame or error — and the
/// contract ties every outcome to it: a failed enumeration or grab is
/// CaptureFailed carrying that very message, an empty enumeration is
/// NoScreensFound, an index at or past the count is ScreenNotFound with
/// the index, and once a frame is in hand the result is exactly what
/// preparation decides for it under the `screen_N` prefix.
pub fn capture(screen_id: usize, config: &Config) -> (r: (
    Result<PreparedImage, ScreenshotError>,
    Ghost<(Result<usize, String>, Option<Result<RawFrame, String>>)>,
))
    requires
        1 <= config.default_quality <= 100,
    ensures
        ({
            let res = r.0;
            let enumerated = r.1@.0;
            let grabbed = r.1@.1;
            &&& (res matches Err(e) ==> ({
                ||| e is CaptureFailed
                ||| e is NoScreensFound
                ||| (e matches ScreenshotError::ScreenNotFound(i) && i == screen_id)
                ||| e is InvalidFormat
                ||| e is ConfigError
                ||| e is PlatformNotSupported
                ||| e is ImageError
            }))
            &&& (res matches Ok(p) ==> (spec_parse_format(config.default_format@) matches Some(f)
                && !(f is WebP) && spec_named_artifact(
                p,
                config,
                "screen_"@ + spec_decimal(screen_id as nat),
            )))
            &&& (match enumerated {
                Err(m) => (res matches Err(e) && e matches ScreenshotError::CaptureFailed(mm)
                    && mm@ == m@) && grabbed is None,
                Ok(count) => {
                    &&& (count == 0 ==> (res matches Err(e) && e is NoScreensFound)
                        && grabbed is None)
                    &&& (count > 0 && screen_id >= count ==> (res matches Err(e) && e matches
                    ScreenshotError::ScreenNotFound(i) && i == screen_id) && grabbed is None)
                    &&& (screen_id < count ==> (grabbed matches Some(g) && (match g {
                        Err(m) => res matches Err(e) && e matches ScreenshotError::CaptureFailed(
                            mm,
                        ) && mm@ == m@,
                        Ok(frame) => spec_prepared_outcome(
                            res,
                            frame,
                            config,
                            "screen_"@ + spec_decimal(screen_id as nat),
                        ),
                    })))
                },
            })
        }),
{
    let screens = match all_screens() {
        Ok(s) => s,
        Err(m) => {
            let ghost trace = (Result::<usize, String>::Err(m), None::<Result<RawFrame, String>>);
            return (Err(ScreenshotError::CaptureFailed(m)), Ghost(trace));
        },
    };
    let ghost enumerated = Result::<usize, String>::Ok(screens.len());
    match select_screen(screens.len(), screen_id) {
        Ok(_) => (),
        Err(e) => {
            return (Err(e), Ghost((enumerated, None::<Result<RawFrame, String>>)));
        },
    }
    let frame = match capture_screen(&screens[screen_id]) {
        Ok(f) => f,
        Err(m) => {
            let ghost trace = (enumerated, Some(Result::<RawFrame, String>::Err(m)));
            return (Err(ScreenshotError::CaptureFailed(m)), Ghost(trace));
        },
    };
    let ghost trace = (enumerated, Some(Result::<RawFrame, String>::Ok(frame)));
    let mut prefix = "screen_".to_owned();
    let number = u64_to_string(screen_id as u64);
    prefix.append(number.as_str());
    (prepare_image_file(&frame, config, prefix.as_str()), Ghost(trace))
}

/// The artifacts among a batch's per-screen entries, in screen order.
pub open spec fn spec_batch_collected(entries: Seq<Option<PreparedImage>>) -> Seq<PreparedImage>
    decreases entries.len(),
{
    if entries.len() == 0 {
        Seq::empty()
    } else {
        let rest = spec_batch_collected(entries.drop_first());
        match entries.first() {
            Some(p) => seq![p] + rest,
            None => rest,
        }
    }
}

proof fn lemma_batch_collected_push(entries: Seq<Option<PreparedImage>>, x: Option<PreparedImage>)
    ensures
        spec_batch_collected(entries.push(x)) == spec_batch_collected(entries) + (match x {
            Some(p) => seq![p],
            None => Seq::<PreparedImage>::empty(),
        }),
    decreases entries.len(),
{
    let tail = (match x {
        Some(p) => seq![p],
        None => Seq::<PreparedImage>::empty(),
    });
    if entries.len() == 0 {
        assert(entries.push(x).first() == x);
        assert(entries.push(x).drop_first() =~= Seq::<Option<PreparedImage>>::empty());
        assert(spec_batch_collected(Seq::<Option<PreparedImage>>::empty())
            =~= Seq::<PreparedImage>::empty());
        assert(spec_batch_collected(entries.push(x)) =~= spec_batch_collected(entries) + tail);
    } else {
        assert(entries.push(x).first() == entries.first());
        assert(entries.push(x).drop_first() =~= entries.drop_first().push(x));
        lemma_batch_collected_push(entries.drop_first(), x);
        assert(spec_batch_collected(entries.push(x)) =~= spec_batch_collected(entries) + tail);
    }
}

/// The capture-and-prepare half of the batch over every enumerated
/// screen: a per-screen grab or encoding failure only skips that screen,
/// never the batch. The ghost record ties the result to what happened:
/// None when the enumeration itself failed (a CaptureFailed); otherwise
/// one entry per enumerated screen, an artifact for each screen that came
/// through — each one under the output directory with its own `screen_N`
/// prefix. An empty enumeration is NoScreensFound; every screen skipped is
/// CaptureFailed; otherwise the batch succeeds with exactly the artifacts
/// of the successful screens, in screen order — a partial success is a
/// success. The caller writes the artifacts out and folds its own write
/// failures in with `summarize_batch`.
pub fn capture_all_screens(config: &Config) -> (r: (
    Result<Vec<PreparedImage>, ScreenshotError>,
    Ghost<Option<Seq<Option<PreparedImage>>>>,
))
    requires
        1 <= config.default_quality <= 100,
    ensures
        ({
            let res = r.0;
            let record = r.1@;
            &&& (record is None ==> (res matches Err(e) && e is CaptureFailed))
            &&& (record matches Some(entries) ==> {
                &&& (entries.len() == 0 ==> (res matches Err(e) && e is NoScreensFound))
                &&& (forall|j: int|
                    0 <= j < entries.len() ==> ((#[trigger] entries[j]) matches Some(p)
                        ==> spec_named_artifact(
                        p,
                        config,
                        "screen_"@ + spec_decimal(j as nat),
                    )))
                &&& (entries.len() > 0 && spec_batch_collected(entries).len() == 0 ==> (res matches
                Err(e) && e matches ScreenshotError::CaptureFailed(m) && m@
                    == "No screens captured"@))
                &&& (spec_batch_collected(entries).len() > 0 ==> (res matches Ok(v) && v@
                    == spec_batch_collected(entries)))
            })
        }),
{
    let screens = match all_screens() {
        Ok(s) => s,
        Err(m) => {
            return (
                Err(ScreenshotError::CaptureFailed(m)),
                Ghost(None::<Seq<Option<PreparedImage>>>),
            );
        },
    };
    let ghost mut entries: Seq<Option<PreparedImage>> = Seq::empty();
    if screens.len() == 0 {
        return (Err(ScreenshotError::NoScreensFound), Ghost(Some(entries)));
    }
    let mut prepared: Vec<PreparedImage> = Vec::new();
    let mut i: usize = 0;
    while i < screens.len()
        invariant
            1 <= config.default_quality <= 100,
            entries.len() == i,
            prepared@ == spec_batch_collected(entries),
            forall|j: int|
                0 <= j < entries.len() ==> ((#[trigger] entries[j]) matches Some(p)
                    ==> spec_named_artifact(p, config, "screen_"@ + spec_decimal(j as nat))),
        decreases screens@.len() - i,
    {
        let ghost old_entries = entries;
        match capture_screen(&screens[i]) {
            Ok(frame) => {
                let mut prefix = "screen_".to_owned();
                let number = u64_to_string(i as u64);
                prefix.append(number.as_str());
                match prepare_image_file(&frame, config, prefix.as_str()) {
                    Ok(p) => {
                        let ghost pushed = p;
                        proof {
                            entries = entries.push(Some(pushed));
                            lemma_batch_collected_push(old_entries, Some(pushed));
                        }
                        prepared.push(p);
                    },
                    Err(_) => {
                        proof {
                            entries = entries.push(None);
                            lemma_batch_collected_push(old_entries, None);
                        }
                    },
                }
            },
            Err(_) => {
                proof {
                    entries = entries.push(None);
                    lemma_batch_collected_push(old_entries, None);
                }
            },
        }
        proof {
            assert(forall|j: int|
                0 <= j < old_entries.len() ==> entries[j] == old_entries[j]);
            assert(prepared@ =~= spec_batch_collected(entries));
        }
        i += 1;
    }
    if prepared.len() == 0 {
        return (
            Err(ScreenshotError::CaptureFailed("No screens captured".to_owned())),
            Ghost(Some(entries)),
        );
    }
    (Ok(prepared), Ghost(Some(entries)))
}

/// The paths of the successful outcomes of a batch, in screen order.
pub open spec fn spec_collected(results: Seq<Option<String>>) -> Seq<Seq<char>>
    decreases results.len(),
{
    if results.len() == 0 {
        Seq::empty()
    } else {
        let rest = spec_collected(results.drop_first());
        match results.first() {
            Some(p) => seq![p@] + rest,
            None => rest,
        }
    }
}

proof fn lemma_collected_push(results: Seq<Option<String>>, x: Option<String>)
    ensures
        spec_collected(results.push(x)) == spec_collected(results) + (match x {
            Some(p) => seq![p@],
            None => Seq::<Seq<char>>::empty(),
        }),
    decreases results.len(),
{
    let tail = (match x {
        Some(p) => seq![p@],
        None => Seq::<Seq<char>>::empty(),
    });
    if results.len() == 0 {
        assert(results.push(x).first() == x);
        assert(results.push(x).drop_first() =~= Seq::<Option<String>>::empty());
        assert(spec_collected(Seq::<Option<String>>::empty()) =~= Seq::<Seq<char>>::empty());
        assert(spec_collected(results.push(x)) =~= spec_collected(results) + tail);
    } else {
        assert(results.push(x).first() == results.first());
        assert(results.push(x).drop_first() =~= results.drop_first().push(x));
        lemma_collected_push(results.drop_first(), x);
        assert(spec_collected(results.push(x)) =~= spec_collected(results) + tail);
    }
}

/// Summarizes a batch of per-screen outcomes, one entry per enumerated
/// screen, `Some` carrying the path a screen's capture-and-save produced.
/// No screens at all is NoScreensFound; every screen failing is
/// CaptureFailed; otherwise the batch succeeds with exactly the paths
/// produced, in screen order — a partial success is a success.
pub fn summarize_batch(results: Vec<Option<String>>) -> (r: Result<Vec<String>, ScreenshotError>)
    ensures
        results@.len() == 0 ==> (r matches Err(e) && e is NoScreensFound),
        results@.len() > 0 && spec_collected(results@).len() == 0 ==> (r matches Err(e) && e
            matches ScreenshotError::CaptureFailed(m) && m@ == "No screens captured"@),
        spec_collected(results@).len() > 0 ==> (r matches Ok(v) && v@.map_values(|s: String| s@)
            == spec_collected(results@)),
{
    if results.len() == 0 {
        return Err(ScreenshotError::NoScreensFound);
    }
    let mut paths: Vec<String> = Vec::new();
    let mut i: usize = 0;
    proof {
        assert(results@.subrange(0, 0) =~= Seq::<Option<String>>::empty());
        assert(paths@.map_values(|s: String| s@) =~= spec_collected(results@.subrange(0, 0)));
    }
    while i < results.len()
        invariant
            i <= results@.len(),
            paths@.map_values(|s: String| s@) == spec_collected(results@.subrange(0, i as int)),
        decreases results@.len() - i,
    {
        proof {
            assert(results@.subrange(0, i + 1) =~= results@.subrange(0, i as int).push(
                results@[i as int],
            ));
            lemma_collected_push(results@.subrange(0, i as int), results@[i as int]);
        }
        match &results[i] {
            Some(p) => {
                let ghost old_paths = paths@;
                paths.push(p.clone());
                proof {
                    assert(paths@.map_values(|s: String| s@) =~= old_paths.map_values(
                        |s: String| s@,
                    ).push(results@[i as int]->Some_0@));
                }
            },
            None => {},
        }
        proof {
            assert(paths@.map_values(|s: String| s@) == spec_collected(
                results@.subrange(0, i + 1),
            ));
        }
        i += 1;
    }
    proof {
        assert(results@.subrange(0, results@.len() as int) =~= results@);
    }
    if paths.len() == 0 {
        proof {
            assert(spec_collected(results@).len() == paths@.map_values(|s: String| s@).len());
        }
        Err(ScreenshotError::CaptureFailed("No screens captured".to_owned()))
    } else {
        Ok(paths)
    }
}

} // verus!
