//! The tooltip lifecycle: hover, pin, edit, commit or cancel.
//!
//! At most one tooltip is active in the whole chart. A hover shows it and
//! a leave hides it, but a pin — toggled by clicking a point — survives
//! leaves and blocks hovers of other points: the pin always wins. Editing
//! is reachable only while pinned; the edit buffer is (re)filled from the
//! active point's current value whenever editing starts, so a stale
//! buffer can never leak from one data point to another. A commit parses
//! the buffer: a plain decimal updates the value and regenerates the
//! label, anything else quietly reverts to the pre-edit value and acts as
//! a cancel.

use vstd::prelude::*;

use vstd::string::StrSliceExecFns;
use vstd::string::StringExecFns;

use crate::fixed::MAX_VALUE;
use crate::numtext::format_milli;
use crate::numtext::lemma_char_index_at;
use crate::numtext::parse_milli;
use crate::numtext::spec_char_index;
use crate::numtext::spec_format_milli;
use crate::numtext::spec_parse_milli;

verus! {

/// The mathematical content of an active tooltip.
pub ghost struct TooltipView {
    pub curve_index: int,
    pub point_index: int,
    pub label: Seq<char>,
    pub value: int,
    pub x: int,
    pub y: int,
    pub color: Seq<char>,
    pub pinned: bool,
    pub editing: bool,
}

/// The active tooltip record: which data point it belongs to, what it
/// shows, where it sits, and whether it is pinned or being edited.
pub struct TooltipData {
    pub curve_index: usize,
    pub point_index: usize,
    pub label: String,
    pub value: i64,
    pub x: i64,
    pub y: i64,
    pub color: String,
    pub pinned: bool,
    pub editing: bool,
}

impl View for TooltipData {
    type V = TooltipView;

    open spec fn view(&self) -> TooltipView {
        TooltipView {
            curve_index: self.curve_index as int,
            point_index: self.point_index as int,
            label: self.label@,
            value: self.value as int,
            x: self.x as int,
            y: self.y as int,
            color: self.color@,
            pinned: self.pinned,
            editing: self.editing,
        }
    }
}

/// The mathematical content of the machine: the active tooltip, if any,
/// and the edit buffer.
pub ghost struct MachineView {
    pub state: Option<TooltipView>,
    pub buffer: Seq<char>,
}

/// The tooltip state machine: at most one active tooltip, plus the text
/// buffer of the edit box.
pub struct TooltipMachine {
    pub state: Option<TooltipData>,
    pub buffer: String,
}

impl View for TooltipMachine {
    type V = MachineView;

    open spec fn view(&self) -> MachineView {
        MachineView {
            state: match self.state {
                Some(t) => Some(t@),
                None => None,
            },
            buffer: self.buffer@,
        }
    }
}

/// What a successful commit reports back: which data point now carries
/// which value.
#[derive(Clone, Copy, PartialEq, Eq, Structural, Debug)]
pub struct EditCommit {
    pub curve_index: usize,
    pub point_index: usize,
    pub value: i64,
}

/// A tooltip payload fit to enter the machine: not yet pinned or editing,
/// its value within formatting range.
pub open spec fn payload_wf(t: TooltipView) -> bool {
    &&& !t.pinned
    &&& !t.editing
    &&& -MAX_VALUE <= t.value <= MAX_VALUE
}

/// The machine's invariant: editing happens only while pinned, and the
/// active value stays within formatting range.
pub open spec fn machine_wf(m: MachineView) -> bool {
    match m.state {
        None => true,
        Some(t) => (t.editing ==> t.pinned) && -MAX_VALUE <= t.value <= MAX_VALUE,
    }
}

/// `t` pinned: the same record locked open, not editing.
pub open spec fn spec_pin(t: TooltipView) -> TooltipView {
    TooltipView { pinned: true, editing: false, ..t }
}

/// Whether two tooltip records point at the same data point.
pub open spec fn same_point(a: TooltipView, b: TooltipView) -> bool {
    a.curve_index == b.curve_index && a.point_index == b.point_index
}

/// A label with its value regenerated: the part before the first colon,
/// then a colon, a space, and the new value.
pub open spec fn spec_relabel(label: Seq<char>, v: int) -> Seq<char> {
    label.take(spec_char_index(label, ':')) + seq![':', ' '] + spec_format_milli(v)
}

/// Regenerates a label for a new value, see [`spec_relabel`].
fn relabel(label: &str, v: i64) -> (r: String)
    requires
        -MAX_VALUE <= v <= MAX_VALUE,
    ensures
        r@ == spec_relabel(label@, v as int),
{
    let len: usize = label.unicode_len();
    let mut colon: usize = 0;
    while colon < len && label.get_char(colon) != ':'
        invariant
            colon <= len,
            len == label@.len(),
            forall|k: int| 0 <= k < colon ==> label@[k] != ':',
        decreases len - colon,
    {
        colon = colon + 1;
    }
    proof {
        lemma_char_index_at(label@, ':', colon as int);
    }
    let mut r: String = String::from_str(label.substring_char(0, colon));
    proof {
        reveal_strlit(": ");
        assert(": "@ =~= seq![':', ' ']);
    }
    r.append(": ");
    let value_text = format_milli(v);
    r.append(value_text.as_str());
    proof {
        assert(r@ =~= spec_relabel(label@, v as int));
    }
    r
}

/// An exact copy of a tooltip record.
pub fn clone_tooltip(t: &TooltipData) -> (r: TooltipData)
    ensures
        r@ == t@,
{
    TooltipData {
        curve_index: t.curve_index,
        point_index: t.point_index,
        label: t.label.clone(),
        value: t.value,
        x: t.x,
        y: t.y,
        color: t.color.clone(),
        pinned: t.pinned,
        editing: t.editing,
    }
}

impl TooltipMachine {
    /// A machine with no active tooltip.
    pub fn new() -> (m: Self)
        ensures
            m@.state is None,
            machine_wf(m@),
    {
        TooltipMachine { state: None, buffer: String::new() }
    }

    /// The pointer entered a point's hit target. A pinned tooltip blocks
    /// the hover — the pin always wins — otherwise the tooltip now hovers
    /// over this point.
    pub fn pointer_enter(&mut self, t: TooltipData)
        requires
            machine_wf(old(self)@),
            payload_wf(t@),
        ensures
            machine_wf(final(self)@),
            old(self)@.state matches Some(p) ==> p.pinned ==> final(self)@ == old(self)@,
            (match old(self)@.state {
                Some(p) => !p.pinned,
                None => true,
            }) ==> final(self)@ == (MachineView {
                state: Some(t@),
                buffer: old(self)@.buffer,
            }),
    {
        let blocked: bool = match &self.state {
            Some(p) => p.pinned,
            None => false,
        };
        if !blocked {
            self.state = Some(t);
        }
    }

    /// The pointer left the active point's hit target: a hovering tooltip
    /// hides, a pinned one stays.
    pub fn pointer_leave(&mut self)
        requires
            machine_wf(old(self)@),
        ensures
            machine_wf(final(self)@),
            old(self)@.state matches Some(p) ==> !p.pinned ==> final(self)@ == (MachineView {
                state: None,
                buffer: old(self)@.buffer,
            }),
            (match old(self)@.state {
                Some(p) => p.pinned,
                None => true,
            }) ==> final(self)@ == old(self)@,
    {
        let hovering: bool = match &self.state {
            Some(p) => !p.pinned,
            None => false,
        };
        if hovering {
            self.state = None;
        }
    }

    /// A click on a point. Clicking the pinned point unpins and hides the
    /// tooltip; any other click pins the clicked point, moving the pin
    /// away from whatever held it (and closing any open edit box, so a
    /// later edit starts from the new point's own value).
    pub fn click(&mut self, t: TooltipData)
        requires
            machine_wf(old(self)@),
            payload_wf(t@),
        ensures
            machine_wf(final(self)@),
            old(self)@.state matches Some(p) ==> p.pinned && same_point(p, t@) ==> final(self)@
                == (MachineView { state: None, buffer: old(self)@.buffer }),
            (match old(self)@.state {
                Some(p) => !(p.pinned && same_point(p, t@)),
                None => true,
            }) ==> final(self)@ == (MachineView {
                state: Some(spec_pin(t@)),
                buffer: old(self)@.buffer,
            }),
    {
        let unpin: bool = match &self.state {
            Some(p) => p.pinned && p.curve_index == t.curve_index && p.point_index
                == t.point_index,
            None => false,
        };
        if unpin {
            self.state = None;
        } else {
            self.state = Some(
                TooltipData {
                    curve_index: t.curve_index,
                    point_index: t.point_index,
                    label: t.label,
                    value: t.value,
                    x: t.x,
                    y: t.y,
                    color: t.color,
                    pinned: true,
                    editing: false,
                },
            );
        }
    }

    /// Editing begins on the pinned tooltip; the edit buffer is filled
    /// from the point's current value, never from an earlier edit.
    pub fn start_edit(&mut self)
        requires
            machine_wf(old(self)@),
        ensures
            machine_wf(final(self)@),
            old(self)@.state matches Some(p) ==> p.pinned && !p.editing ==> final(self)@
                == (MachineView {
                state: Some(TooltipView { editing: true, ..p }),
                buffer: spec_format_milli(p.value),
            }),
            (match old(self)@.state {
                Some(p) => !p.pinned || p.editing,
                None => true,
            }) ==> final(self)@ == old(self)@,
    {
        let ready: bool = match &self.state {
            Some(p) => p.pinned && !p.editing,
            None => false,
        };
        if ready {
            let p = self.state.take().unwrap();
            self.buffer = format_milli(p.value);
            self.state = Some(
                TooltipData {
                    curve_index: p.curve_index,
                    point_index: p.point_index,
                    label: p.label,
                    value: p.value,
                    x: p.x,
                    y: p.y,
                    color: p.color,
                    pinned: p.pinned,
                    editing: true,
                },
            );
        }
    }

    /// The edit box's text changed; remembered only while editing.
    pub fn set_input(&mut self, text: String)
        requires
            machine_wf(old(self)@),
        ensures
            machine_wf(final(self)@),
            old(self)@.state matches Some(p) ==> p.editing ==> final(self)@ == (MachineView {
                state: old(self)@.state,
                buffer: text@,
            }),
            (match old(self)@.state {
                Some(p) => !p.editing,
                None => true,
            }) ==> final(self)@ == old(self)@,
    {
        let editing: bool = match &self.state {
            Some(p) => p.editing,
            None => false,
        };
        if editing {
            self.buffer = text;
        }
    }

    /// Commits the edit buffer. A plain decimal becomes the point's new
    /// value: the tooltip returns to pinned with the value written in and
    /// the label regenerated, and the data point to update is reported
    /// back. Any other text is never an error: the value stays what it
    /// was and the edit quietly ends as a cancel. Without an open edit
    /// box a commit does nothing.
    pub fn commit(&mut self) -> (r: Option<EditCommit>)
        requires
            machine_wf(old(self)@),
        ensures
            machine_wf(final(self)@),
            (match old(self)@.state {
                Some(p) => !p.editing,
                None => true,
            }) ==> final(self)@ == old(self)@ && r is None,
            old(self)@.state matches Some(p) ==> p.editing ==> match spec_parse_milli(
                old(self)@.buffer,
            ) {
                Some(v) => {
                    &&& final(self)@ == (MachineView {
                        state: Some(
                            TooltipView {
                                value: v,
                                label: spec_relabel(p.label, v),
                                editing: false,
                                ..p
                            },
                        ),
                        buffer: spec_format_milli(v),
                    })
                    &&& r matches Some(ec) && ec.curve_index == p.curve_index && ec.point_index
                        == p.point_index && ec.value == v
                },
                None => {
                    &&& final(self)@ == (MachineView {
                        state: Some(TooltipView { editing: false, ..p }),
                        buffer: spec_format_milli(p.value),
                    })
                    &&& r is None
                },
            },
    {
        let editing: bool = match &self.state {
            Some(p) => p.editing,
            None => false,
        };
        if !editing {
            return None;
        }
        let p = self.state.take().unwrap();
        match parse_milli(self.buffer.as_str()) {
            Some(v) => {
                let label = relabel(p.label.as_str(), v);
                self.buffer = format_milli(v);
                self.state = Some(
                    TooltipData {
                        curve_index: p.curve_index,
                        point_index: p.point_index,
                        label,
                        value: v,
                        x: p.x,
                        y: p.y,
                        color: p.color,
                        pinned: p.pinned,
                        editing: false,
                    },
                );
                Some(
                    EditCommit {
                        curve_index: p.curve_index,
                        point_index: p.point_index,
                        value: v,
                    },
                )
            },
            None => {
                self.buffer = format_milli(p.value);
                self.state = Some(
                    TooltipData {
                        curve_index: p.curve_index,
                        point_index: p.point_index,
                        label: p.label,
                        value: p.value,
                        x: p.x,
                        y: p.y,
                        color: p.color,
                        pinned: p.pinned,
                        editing: false,
                    },
                );
                None
            },
        }
    }

    /// Cancels the edit: the tooltip returns to pinned, the value
    /// untouched, the buffer restored to the point's own value.
    pub fn cancel(&mut self)
        requires
            machine_wf(old(self)@),
        ensures
            machine_wf(final(self)@),
            old(self)@.state matches Some(p) ==> p.editing ==> final(self)@ == (MachineView {
                state: Some(TooltipView { editing: false, ..p }),
                buffer: spec_format_milli(p.value),
            }),
            (match old(self)@.state {
                Some(p) => !p.editing,
                None => true,
            }) ==> final(self)@ == old(self)@,
    {
        let editing: bool = match &self.state {
            Some(p) => p.editing,
            None => false,
        };
        if editing {
            let p = self.state.take().unwrap();
            self.buffer = format_milli(p.value);
            self.state = Some(
                TooltipData {
                    curve_index: p.curve_index,
                    point_index: p.point_index,
                    label: p.label,
                    value: p.value,
                    x: p.x,
                    y: p.y,
                    color: p.color,
                    pinned: p.pinned,
                    editing: false,
                },
            );
        }
    }

    /// Losing focus is an implicit commit attempt, validated exactly as
    /// an explicit commit is.
    pub fn blur(&mut self) -> (r: Option<EditCommit>)
        requires
            machine_wf(old(self)@),
        ensures
            machine_wf(final(self)@),
            (match old(self)@.state {
                Some(p) => !p.editing,
                None => true,
            }) ==> final(self)@ == old(self)@ && r is None,
            old(self)@.state matches Some(p) ==> p.editing ==> match spec_parse_milli(
                old(self)@.buffer,
            ) {
                Some(v) => {
                    &&& final(self)@ == (MachineView {
                        state: Some(
                            TooltipView {
                                value: v,
                                label: spec_relabel(p.label, v),
                                editing: false,
                                ..p
                            },
                        ),
                        buffer: spec_format_milli(v),
                    })
                    &&& r matches Some(ec) && ec.curve_index == p.curve_index && ec.point_index
                        == p.point_index && ec.value == v
                },
                None => {
                    &&& final(self)@ == (MachineView {
                        state: Some(TooltipView { editing: false, ..p }),
                        buffer: spec_format_milli(p.value),
                    })
                    &&& r is None
                },
            },
    {
        self.commit()
    }
}

} // verus!
