//! The simulated per-frame object detection used by the stateful stream
//! engine. The detection itself is placeholder domain logic; what matters
//! is its exact behaviour: a deterministic candidate list, filtered by the
//! session's confidence threshold, truncated to the session's object
//! bound.

use vstd::prelude::*;

verus! {

/// An axis-aligned box, in pixels.
#[derive(Debug, Clone, PartialEq, Eq, Structural)]
pub struct BoundingBox {
    pub x: u32,
    pub y: u32,
    pub width: u32,
    pub height: u32,
}

/// One detected object. Confidence is carried in hundredths (a value of
/// 85 stands for a confidence of 0.85).
#[derive(Debug, Clone)]
pub struct ObjectDetection {
    pub id: u32,
    pub label: String,
    pub confidence_centi: u32,
    pub bbox: BoundingBox,
    pub class_id: u32,
}

/// The specification-level image of a detection, with the label as its
/// character content.
pub struct DetectionModel {
    pub id: u32,
    pub label: Seq<char>,
    pub confidence_centi: u32,
    pub bbox: BoundingBox,
    pub class_id: u32,
}

impl ObjectDetection {
    /// The specification-level image of this detection.
    pub open spec fn model(self) -> DetectionModel {
        DetectionModel {
            id: self.id,
            label: self.label@,
            confidence_centi: self.confidence_centi,
            bbox: self.bbox,
            class_id: self.class_id,
        }
    }
}

/// The label of candidate class `j`, drawn from a fixed seven-entry table.
pub open spec fn spec_label(j: int) -> Seq<char> {
    if j == 0 {
        "person"@
    } else if j == 1 {
        "car"@
    } else if j == 2 {
        "truck"@
    } else if j == 3 {
        "bus"@
    } else if j == 4 {
        "bicycle"@
    } else if j == 5 {
        "dog"@
    } else {
        "cat"@
    }
}

/// Candidate detection `i` of a frame: class `i % 7`, confidence
/// `60 + min(5 i, 35)` hundredths, and a box that walks down and to the
/// right with `i`.
pub open spec fn spec_candidate(i: int) -> DetectionModel {
    DetectionModel {
        id: i as u32,
        label: spec_label(i % 7),
        confidence_centi: (60 + (if 5 * i < 35 {
            5 * i
        } else {
            35
        })) as u32,
        bbox: BoundingBox {
            x: (100 + 50 * i) as u32,
            y: (100 + 30 * i) as u32,
            width: 200,
            height: 150,
        },
        class_id: (i % 7) as u32,
    }
}

/// How many candidates a frame yields: one to five, cycling with the
/// session's frame counter.
pub open spec fn spec_candidate_count(frame_count: u64) -> int {
    frame_count as int % 5 + 1
}

/// The first `n` candidates.
pub open spec fn spec_candidates(n: int) -> Seq<DetectionModel> {
    Seq::new(n as nat, |i: int| spec_candidate(i))
}

/// The candidates whose confidence reaches the threshold `c`, in order.
pub open spec fn filter_conf(s: Seq<DetectionModel>, c: u32) -> Seq<DetectionModel>
    decreases s.len(),
{
    if s.len() == 0 {
        Seq::empty()
    } else {
        filter_conf(s.drop_last(), c) + (if s.last().confidence_centi >= c {
            seq![s.last()]
        } else {
            Seq::empty()
        })
    }
}

/// The first `n` elements of `s`, or all of `s` if it is shorter.
pub open spec fn take_at_most<T>(s: Seq<T>, n: int) -> Seq<T> {
    if s.len() <= n {
        s
    } else {
        s.subrange(0, n)
    }
}

/// How many of the detections carry the label `l`.
pub open spec fn label_count(s: Seq<DetectionModel>, l: Seq<char>) -> nat
    decreases s.len(),
{
    if s.len() == 0 {
        0nat
    } else {
        label_count(s.drop_last(), l) + (if s.last().label == l {
            1nat
        } else {
            0nat
        })
    }
}

/// Appending a detection raises exactly its own label's count by one.
pub proof fn lemma_label_count_push(s: Seq<DetectionModel>, x: DetectionModel, l: Seq<char>)
    ensures
        label_count(s.push(x), l) == label_count(s, l) + (if x.label == l {
            1nat
        } else {
            0nat
        }),
{
    assert(s.push(x).drop_last() =~= s);
    assert(s.push(x).last() == x);
}

/// Appending an element that passes the filter extends the filtered
/// sequence by it; appending one that fails leaves it unchanged.
proof fn lemma_filter_push(s: Seq<DetectionModel>, x: DetectionModel, c: u32)
    ensures
        x.confidence_centi >= c ==> filter_conf(s.push(x), c) == filter_conf(s, c).push(x),
        x.confidence_centi < c ==> filter_conf(s.push(x), c) == filter_conf(s, c),
{
    assert(s.push(x).drop_last() =~= s);
    assert(s.push(x).last() == x);
    if x.confidence_centi >= c {
        assert(filter_conf(s.push(x), c) =~= filter_conf(s, c).push(x));
    } else {
        assert(filter_conf(s.push(x), c) =~= filter_conf(s, c));
    }
}

/// What the detector keeps for a frame: the candidates of the frame,
/// filtered by the configured confidence threshold, truncated to the
/// configured object bound.
pub open spec fn spec_detections(frame_count: u64, conf_threshold: u32, max_objects: u32) -> Seq<
    DetectionModel,
> {
    take_at_most(
        filter_conf(spec_candidates(spec_candidate_count(frame_count)), conf_threshold),
        max_objects as int,
    )
}

/// Runs the simulated detector for one frame.
pub fn run_detection(frame_count: u64, conf_threshold: u32, max_objects: u32) -> (r: Vec<
    ObjectDetection,
>)
    ensures
        r@.map_values(|d: ObjectDetection| d.model()) == spec_detections(
            frame_count,
            conf_threshold,
            max_objects,
        ),
        r@.len() <= max_objects,
{
    let n: u64 = frame_count % 5 + 1;
    let mut out: Vec<ObjectDetection> = Vec::new();
    let mut i: u64 = 0;
    while i < n
        invariant
            0 <= i <= n,
            n == spec_candidate_count(frame_count),
            out@.len() <= max_objects,
            out@.map_values(|d: ObjectDetection| d.model()) == take_at_most(
                filter_conf(spec_candidates(i as int), conf_threshold),
                max_objects as int,
            ),
        decreases n - i,
    {
        let label = pick_label((i % 7) as usize);
        let five_i: u32 = 5 * (i as u32);
        let conf: u32 = 60 + (if five_i < 35 {
            five_i
        } else {
            35
        });
        let det = ObjectDetection {
            id: i as u32,
            label,
            confidence_centi: conf,
            bbox: BoundingBox {
                x: 100 + 50 * (i as u32),
                y: 100 + 30 * (i as u32),
                width: 200,
                height: 150,
            },
            class_id: (i % 7) as u32,
        };
        proof {
            assert(det.model() == spec_candidate(i as int));
            assert(spec_candidates(i as int + 1) =~= spec_candidates(i as int).push(
                spec_candidate(i as int),
            ));
            lemma_filter_push(spec_candidates(i as int), spec_candidate(i as int), conf_threshold);
        }
        let ghost pre_filtered = filter_conf(spec_candidates(i as int), conf_threshold);
        if conf >= conf_threshold && out.len() < max_objects as usize {
            out.push(det);
            proof {
                assert(pre_filtered.len() == out@.len() - 1) by {
                    lemma_take_at_most_len(pre_filtered, max_objects as int);
                }
                assert(out@.map_values(|d: ObjectDetection| d.model()) =~= take_at_most(
                    filter_conf(spec_candidates(i as int + 1), conf_threshold),
                    max_objects as int,
                ));
            }
        } else {
            proof {
                if conf >= conf_threshold {
                    assert(pre_filtered.len() >= max_objects) by {
                        lemma_take_at_most_len(pre_filtered, max_objects as int);
                    }
                    assert(take_at_most(pre_filtered.push(spec_candidate(i as int)), max_objects as int)
                        =~= take_at_most(pre_filtered, max_objects as int));
                }
                assert(out@.map_values(|d: ObjectDetection| d.model()) =~= take_at_most(
                    filter_conf(spec_candidates(i as int + 1), conf_threshold),
                    max_objects as int,
                ));
            }
        }
        i = i + 1;
    }
    out
}

/// The length of `take_at_most` is the smaller of the two.
proof fn lemma_take_at_most_len<T>(s: Seq<T>, n: int)
    requires
        n >= 0,
    ensures
        take_at_most(s, n).len() == (if s.len() <= n {
            s.len() as int
        } else {
            n
        }),
{
}

/// The executable label table; agrees with `spec_label` for indices below
/// seven.
pub fn pick_label(j: usize) -> (r: String)
    requires
        j < 7,
    ensures
        r@ == spec_label(j as int),
{
    if j == 0 {
        String::from_str("person")
    } else if j == 1 {
        String::from_str("car")
    } else if j == 2 {
        String::from_str("truck")
    } else if j == 3 {
        String::from_str("bus")
    } else if j == 4 {
        String::from_str("bicycle")
    } else if j == 5 {
        String::from_str("dog")
    } else {
        String::from_str("cat")
    }
}

} // verus!
