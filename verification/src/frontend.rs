use vstd::prelude::*;
use vstd::string::*;
use crate::sources::SourceView;

verus! {

/// The pages of the web front end.
#[derive(Debug, Clone, Copy, PartialEq, Eq, Structural)]
pub enum Route {
    /// Where a source is chosen.
    Home,
    /// Where the chosen source is watched.
    View,
}

/// The path at which each page is served.
pub open spec fn route_path(r: Route) -> Seq<char> {
    match r {
        Route::Home => "/"@,
        Route::View => "/view"@,
    }
}

impl Route {
    /// The path at which this page is served.
    pub fn path(&self) -> (res: &'static str)
        ensures
            res@ == route_path(*self),
    {
        match self {
            Route::Home => "/",
            Route::View => "/view",
        }
    }
}

/// What is shown for each page.
#[derive(Debug, Clone, Copy, PartialEq, Eq, Structural)]
pub enum Page {
    /// The list of sources to choose from.
    ChooseSource,
    /// The video of the chosen source.
    ViewSource,
}

/// What is shown at a route.
pub fn switch(route: &Route) -> (res: Page)
    ensures
        *route is Home ==> res is ChooseSource,
        *route is View ==> res is ViewSource,
{
    match route {
        Route::Home => Page::ChooseSource,
        Route::View => Page::ViewSource,
    }
}

/// The character of a decimal digit.
pub open spec fn digit_char(d: nat) -> char {
    if d == 0 { '0' }
    else if d == 1 { '1' }
    else if d == 2 { '2' }
    else if d == 3 { '3' }
    else if d == 4 { '4' }
    else if d == 5 { '5' }
    else if d == 6 { '6' }
    else if d == 7 { '7' }
    else if d == 8 { '8' }
    else { '9' }
}

/// The digit that a character stands for, where it is one.
pub open spec fn digit_value(c: char) -> Option<nat> {
    if c == '0' { Some(0) }
    else if c == '1' { Some(1) }
    else if c == '2' { Some(2) }
    else if c == '3' { Some(3) }
    else if c == '4' { Some(4) }
    else if c == '5' { Some(5) }
    else if c == '6' { Some(6) }
    else if c == '7' { Some(7) }
    else if c == '8' { Some(8) }
    else if c == '9' { Some(9) }
    else { None }
}

/// The decimal notation of `n`, with no leading zero.
pub open spec fn decimal(n: nat) -> Seq<char>
    decreases n,
{
    if n < 10 {
        seq![digit_char(n)]
    } else {
        decimal(n / 10).push(digit_char(n % 10))
    }
}

/// The number that a string of decimal digits denotes, where it is one.
pub open spec fn decimal_value(s: Seq<char>) -> Option<nat>
    decreases s.len(),
{
    if s.len() == 0 {
        None
    } else if s.len() == 1 {
        digit_value(s[0])
    } else {
        match (decimal_value(s.drop_last()), digit_value(s.last())) {
            (Some(h), Some(d)) => Some(h * 10 + d),
            _ => None,
        }
    }
}

/// Reading the decimal notation of a number gives the number back, and the
/// notation starts with a zero only for zero itself.
pub proof fn decimal_reads_back(n: nat)
    ensures
        decimal_value(decimal(n)) == Some(n),
        decimal(n).len() >= 1,
        n > 0 ==> decimal(n)[0] != '0',
    decreases n,
{
    if n >= 10 {
        decimal_reads_back(n / 10);
        let s = decimal(n);
        assert(s.drop_last() =~= decimal(n / 10));
        assert(s[0] == decimal(n / 10)[0]);
    }
}

fn digit_str(d: usize) -> (res: &'static str)
    requires
        d < 10,
    ensures
        res@ == seq![digit_char(d as nat)],
{
    if d == 0 {
        proof { reveal_strlit("0"); }
        "0"
    } else if d == 1 {
        proof { reveal_strlit("1"); }
        "1"
    } else if d == 2 {
        proof { reveal_strlit("2"); }
        "2"
    } else if d == 3 {
        proof { reveal_strlit("3"); }
        "3"
    } else if d == 4 {
        proof { reveal_strlit("4"); }
        "4"
    } else if d == 5 {
        proof { reveal_strlit("5"); }
        "5"
    } else if d == 6 {
        proof { reveal_strlit("6"); }
        "6"
    } else if d == 7 {
        proof { reveal_strlit("7"); }
        "7"
    } else if d == 8 {
        proof { reveal_strlit("8"); }
        "8"
    } else {
        proof { reveal_strlit("9"); }
        "9"
    }
}

/// The decimal notation of `n`.
pub fn decimal_string(n: usize) -> (res: String)
    ensures
        res@ == decimal(n as nat),
    decreases n,
{
    if n < 10 {
        String::from_str(digit_str(n))
    } else {
        let mut s = decimal_string(n / 10);
        s.append(digit_str(n % 10));
        s
    }
}

/// One entry of the source chooser: the source's position as its value, its url
/// as its label, and a style that hides it when the source does not stream.
pub struct VideoOption {
    pub value: String,
    pub style: &'static str,
    pub label: String,
}

/// The style of a chooser entry: none for a streaming source, hidden otherwise.
pub open spec fn option_style(state: bool) -> Seq<char> {
    if state { ""@ } else { "display: none;"@ }
}

/// Whether a chooser entry stands for the source at position `i`.
pub open spec fn offers(o: VideoOption, i: nat, v: SourceView) -> bool {
    &&& o.value@ == decimal(i)
    &&& o.style@ == option_style(v.state)
    &&& o.label@ == v.url@
}

/// The entries of the source chooser, one for each listed source, in order.
pub fn video_options(list: &Vec<SourceView>) -> (res: Vec<VideoOption>)
    ensures
        res@.len() == list@.len(),
        forall|i: int| 0 <= i < list@.len() ==> #[trigger] offers(res@[i], i as nat, list@[i]),
        forall|i: int| 0 <= i < list@.len() ==> {
            &&& list@[i].state ==> (#[trigger] res@[i]).style@ == ""@
            &&& !list@[i].state ==> res@[i].style@ == "display: none;"@
            &&& decimal_value(res@[i].value@) == Some(i as nat)
            &&& res@[i].label@ == list@[i].url@
        },
{
    let mut res: Vec<VideoOption> = Vec::new();
    let mut i: usize = 0;
    while i < list.len()
        invariant
            i <= list@.len(),
            res@.len() == i,
            forall|j: int| 0 <= j < i ==> #[trigger] offers(res@[j], j as nat, list@[j]),
        decreases list@.len() - i,
    {
        let video = &list[i];
        let style = if video.state { "" } else { "display: none;" };
        res.push(VideoOption { value: decimal_string(i), style, label: video.url.clone() });
        i = i + 1;
    }
    proof {
        assert forall|i: int| 0 <= i < list@.len() implies {
            &&& list@[i].state ==> (#[trigger] res@[i]).style@ == ""@
            &&& !list@[i].state ==> res@[i].style@ == "display: none;"@
            &&& decimal_value(res@[i].value@) == Some(i as nat)
            &&& res@[i].label@ == list@[i].url@
        } by {
            chooser_entry_law(res@[i], i as nat, list@[i]);
        }
    }
    res
}

/// A chooser entry hides its source exactly when that source does not stream
/// (its style is empty for a streaming source and `display: none;` for a
/// stopped one, at every position), its value reads back as its position, and
/// its label is the source's url.
pub proof fn chooser_entry_law(o: VideoOption, i: nat, v: SourceView)
    requires
        offers(o, i, v),
    ensures
        v.state ==> o.style@ == ""@,
        !v.state ==> o.style@ == "display: none;"@,
        o.style@ == ""@ <==> v.state,
        decimal_value(o.value@) == Some(i),
        o.label@ == v.url@,
{
    reveal_strlit("");
    reveal_strlit("display: none;");
    assert(""@.len() == 0);
    assert("display: none;"@.len() == 14);
    decimal_reads_back(i);
}

/// Entries at different positions have different values, so choosing an entry
/// always picks out the source at its own position.
pub proof fn chooser_values_are_distinct(o1: VideoOption, i1: nat, v1: SourceView, o2: VideoOption, i2: nat, v2: SourceView)
    requires
        offers(o1, i1, v1),
        offers(o2, i2, v2),
        i1 != i2,
    ensures
        o1.value@ != o2.value@,
{
    chooser_entry_law(o1, i1, v1);
    chooser_entry_law(o2, i2, v2);
}

} // verus!
