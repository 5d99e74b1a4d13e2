use vstd::prelude::*;

verus! {

/// The print-schema options chosen for a job, one of each kind at most.
pub struct PrintOptions<M, O, C, D, R> {
    pub media: Option<M>,
    pub orientation: Option<O>,
    pub output_color: Option<C>,
    pub job_duplex: Option<D>,
    pub resolution: Option<R>,
}

/// One option merged into a print ticket.
pub enum TicketOption<M, O, C, D, R> {
    Media(M),
    Orientation(O),
    OutputColor(C),
    JobDuplex(D),
    Resolution(R),
}

/// The option as a one-element sequence, or none.
pub open spec fn present<T, U>(value: Option<T>, wrap: spec_fn(T) -> U) -> Seq<U> {
    match value {
        Some(v) => seq![wrap(v)],
        None => Seq::empty(),
    }
}

impl<M, O, C, D, R> PrintOptions<M, O, C, D, R> {
    /// The chosen options in the order they are merged into a print ticket:
    /// media, orientation, output color, duplex, resolution.
    pub open spec fn spec_ticket_options(self) -> Seq<TicketOption<M, O, C, D, R>> {
        present(self.media, |v: M| TicketOption::Media(v))
            + present(self.orientation, |v: O| TicketOption::Orientation(v))
            + present(self.output_color, |v: C| TicketOption::OutputColor(v))
            + present(self.job_duplex, |v: D| TicketOption::JobDuplex(v))
            + present(self.resolution, |v: R| TicketOption::Resolution(v))
    }

    /// The chosen options in the order they are merged into a print ticket:
    /// media, orientation, output color, duplex, resolution.
    pub fn into_ticket_options(self) -> (r: Vec<TicketOption<M, O, C, D, R>>)
        ensures
            r@ == self.spec_ticket_options(),
    {
        let ghost whole = self;
        let mut r: Vec<TicketOption<M, O, C, D, R>> = Vec::new();
        if let Some(v) = self.media {
            r.push(TicketOption::Media(v));
        }
        if let Some(v) = self.orientation {
            r.push(TicketOption::Orientation(v));
        }
        if let Some(v) = self.output_color {
            r.push(TicketOption::OutputColor(v));
        }
        if let Some(v) = self.job_duplex {
            r.push(TicketOption::JobDuplex(v));
        }
        if let Some(v) = self.resolution {
            r.push(TicketOption::Resolution(v));
        }
        assert(r@ =~= whole.spec_ticket_options());
        r
    }
}


/// The place of an option's kind in the order options are merged: media,
/// orientation, output color, duplex, resolution.
pub open spec fn kind_rank<M, O, C, D, R>(t: TicketOption<M, O, C, D, R>) -> int {
    match t {
        TicketOption::Media(_) => 0,
        TicketOption::Orientation(_) => 1,
        TicketOption::OutputColor(_) => 2,
        TicketOption::JobDuplex(_) => 3,
        TicketOption::Resolution(_) => 4,
    }
}

/// The option carried by a ticket entry is the one chosen for its kind.
pub open spec fn entry_chosen<M, O, C, D, R>(o: PrintOptions<M, O, C, D, R>, t: TicketOption<M, O, C, D, R>) -> bool {
    match t {
        TicketOption::Media(v) => o.media == Some(v),
        TicketOption::Orientation(v) => o.orientation == Some(v),
        TicketOption::OutputColor(v) => o.output_color == Some(v),
        TicketOption::JobDuplex(v) => o.job_duplex == Some(v),
        TicketOption::Resolution(v) => o.resolution == Some(v),
    }
}

/// Every chosen option is merged into the ticket, carrying its value; no
/// other option is; and the kinds come in the order media, orientation,
/// output color, duplex, resolution, each at most once.
pub proof fn lemma_ticket_options_complete<M, O, C, D, R>(o: PrintOptions<M, O, C, D, R>)
    ensures
        o.media matches Some(v) ==> o.spec_ticket_options().contains(TicketOption::Media(v)),
        o.orientation matches Some(v) ==> o.spec_ticket_options().contains(TicketOption::Orientation(v)),
        o.output_color matches Some(v) ==> o.spec_ticket_options().contains(TicketOption::OutputColor(v)),
        o.job_duplex matches Some(v) ==> o.spec_ticket_options().contains(TicketOption::JobDuplex(v)),
        o.resolution matches Some(v) ==> o.spec_ticket_options().contains(TicketOption::Resolution(v)),
        forall|i: int| 0 <= i < o.spec_ticket_options().len() ==> entry_chosen(o, #[trigger] o.spec_ticket_options()[i]),
        forall|i: int, j: int| 0 <= i < j < o.spec_ticket_options().len()
            ==> kind_rank(#[trigger] o.spec_ticket_options()[i]) < kind_rank(#[trigger] o.spec_ticket_options()[j]),
{
    let a = present(o.media, |v: M| TicketOption::<M, O, C, D, R>::Media(v));
    let b = present(o.orientation, |v: O| TicketOption::<M, O, C, D, R>::Orientation(v));
    let c = present(o.output_color, |v: C| TicketOption::<M, O, C, D, R>::OutputColor(v));
    let d = present(o.job_duplex, |v: D| TicketOption::<M, O, C, D, R>::JobDuplex(v));
    let e = present(o.resolution, |v: R| TicketOption::<M, O, C, D, R>::Resolution(v));
    let s = o.spec_ticket_options();
    assert(s == a + b + c + d + e);
    assert(forall|k: int| 0 <= k < a.len() ==> kind_rank(#[trigger] a[k]) == 0 && entry_chosen(o, a[k]));
    assert(forall|k: int| 0 <= k < b.len() ==> kind_rank(#[trigger] b[k]) == 1 && entry_chosen(o, b[k]));
    assert(forall|k: int| 0 <= k < c.len() ==> kind_rank(#[trigger] c[k]) == 2 && entry_chosen(o, c[k]));
    assert(forall|k: int| 0 <= k < d.len() ==> kind_rank(#[trigger] d[k]) == 3 && entry_chosen(o, d[k]));
    assert(forall|k: int| 0 <= k < e.len() ==> kind_rank(#[trigger] e[k]) == 4 && entry_chosen(o, e[k]));
    assert(a.len() <= 1 && b.len() <= 1 && c.len() <= 1 && d.len() <= 1 && e.len() <= 1);
    let la = a.len() as int;
    let lb = la + b.len();
    let lc = lb + c.len();
    let ld = lc + d.len();
    assert forall|i: int| 0 <= i < s.len() implies
        (i < la ==> s[i] == a[i])
        && (la <= i < lb ==> s[i] == b[i - la])
        && (lb <= i < lc ==> s[i] == c[i - lb])
        && (lc <= i < ld ==> s[i] == d[i - lc])
        && (ld <= i ==> s[i] == e[i - ld]) by {}
    assert forall|i: int| 0 <= i < s.len() implies entry_chosen(o, #[trigger] s[i]) by {
        if i < la {} else if i < lb {} else if i < lc {} else if i < ld {} else {}
    }
    assert forall|i: int, j: int| 0 <= i < j < s.len() implies kind_rank(#[trigger] s[i]) < kind_rank(#[trigger] s[j]) by {
        if i < la {} else if i < lb {} else if i < lc {} else if i < ld {} else {}
        if j < la {} else if j < lb {} else if j < lc {} else if j < ld {} else {}
    }
    if let Some(v) = o.media {
        assert(s[0] == TicketOption::<M, O, C, D, R>::Media(v));
    }
    if let Some(v) = o.orientation {
        assert(s[la] == TicketOption::<M, O, C, D, R>::Orientation(v));
    }
    if let Some(v) = o.output_color {
        assert(s[lb] == TicketOption::<M, O, C, D, R>::OutputColor(v));
    }
    if let Some(v) = o.job_duplex {
        assert(s[lc] == TicketOption::<M, O, C, D, R>::JobDuplex(v));
    }
    if let Some(v) = o.resolution {
        assert(s[ld] == TicketOption::<M, O, C, D, R>::Resolution(v));
    }
}

} // verus!
