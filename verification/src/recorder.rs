//! The canonical "recording closed" event and its title-template formatter.
//!
//! Templates are a restricted micro-language: `%T` expands to the recording
//! title, `%N` to the streamer name, `%d` to the broadcast-day date string,
//! `%t` to the UTC+8 time string; any other two-character `%x` sequence is
//! copied verbatim, and a lone `%` at template end is copied as `%`. Literal
//! text is kept only up to the last `%` of the template.

use crate::datetime::{
    parse_rfc3339, rfc3339_parts_of, spec_date_string, spec_time_string, DateTimeParts,
};
use vstd::pervasive::unreached;
use vstd::prelude::*;

verus! {

/// An immutable fact produced externally when a recording file closes.
pub struct RecorderEvent {
    pub event_id: String,
    pub event_type: String,
    pub event_data: RecorderEventData,
}

/// The payload of a recorder event. The media duration is carried in
/// milliseconds so that the ingestion threshold is exact.
pub struct RecorderEventData {
    pub room_id: u64,
    pub name: String,
    pub title: String,
    pub relative_path: String,
    pub file_open_time: String,
    pub file_size: u64,
    pub duration_ms: u64,
}

impl Clone for RecorderEventData {
    fn clone(&self) -> (r: Self)
        ensures
            r == *self,
    {
        RecorderEventData {
            room_id: self.room_id,
            name: self.name.clone(),
            title: self.title.clone(),
            relative_path: self.relative_path.clone(),
            file_open_time: self.file_open_time.clone(),
            file_size: self.file_size,
            duration_ms: self.duration_ms,
        }
    }
}

impl Clone for RecorderEvent {
    fn clone(&self) -> (r: Self)
        ensures
            r == *self,
    {
        RecorderEvent {
            event_id: self.event_id.clone(),
            event_type: self.event_type.clone(),
            event_data: self.event_data.clone(),
        }
    }
}

/// Expansion of the directive character following a `%`.
pub open spec fn spec_directive(
    c: char,
    title: Seq<char>,
    name: Seq<char>,
    date: Seq<char>,
    time: Seq<char>,
) -> Seq<char> {
    if c == 'T' {
        title
    } else if c == 'N' {
        name
    } else if c == 'd' {
        date
    } else if c == 't' {
        time
    } else {
        seq!['%', c]
    }
}

/// Output of the template formatter: directives expand, a trailing lone `%`
/// stands for itself, and a literal character survives only if another `%`
/// still follows it.
pub open spec fn spec_format(
    tmpl: Seq<char>,
    title: Seq<char>,
    name: Seq<char>,
    date: Seq<char>,
    time: Seq<char>,
) -> Seq<char>
    decreases tmpl.len(),
{
    if tmpl.len() == 0 {
        Seq::empty()
    } else if tmpl[0] == '%' {
        if tmpl.len() == 1 {
            seq!['%']
        } else {
            spec_directive(tmpl[1], title, name, date, time) + spec_format(
                tmpl.skip(2),
                title,
                name,
                date,
                time,
            )
        }
    } else if tmpl.contains('%') {
        seq![tmpl[0]] + spec_format(tmpl.skip(1), title, name, date, time)
    } else {
        Seq::empty()
    }
}

impl RecorderEventData {
    /// The parse of this recording's opening timestamp.
    pub open spec fn spec_parts(&self) -> Option<DateTimeParts> {
        rfc3339_parts_of(self.file_open_time@)
    }

    /// What `format` renders for a template.
    pub open spec fn spec_formatted(&self, tmpl: Seq<char>) -> Seq<char> {
        spec_format(
            tmpl,
            self.title@,
            self.name@,
            spec_date_string(self.spec_parts().unwrap()),
            spec_time_string(self.spec_parts().unwrap()),
        )
    }

    /// Renders a title/description template for this recording.
    #[verifier::loop_isolation(false)]
    pub fn format(&self, template: &str) -> (r: String)
        requires
            self.spec_parts() is Some,
        ensures
            r@ == self.spec_formatted(template@),
    {
        let parts = match parse_rfc3339(self.file_open_time.as_str()) {
            Some(p) => p,
            None => unreached(),
        };
        let date_s = parts.date_string();
        let time_s = parts.time_string();
        let n = template.unicode_len();

        let mut has_pct = false;
        let mut last_pct: usize = 0;
        let mut j: usize = 0;
        while j < n
            invariant
                j <= n,
                has_pct <==> exists|k: int| 0 <= k < j && template@[k] == '%',
                has_pct ==> last_pct < j && template@[last_pct as int] == '%',
                has_pct ==> forall|k: int| last_pct < k < j ==> template@[k] != '%',
            decreases n - j,
        {
            if template.get_char(j) == '%' {
                has_pct = true;
                last_pct = j;
            }
            j += 1;
        }

        let ghost tv = template@;
        let mut out = String::new();
        let mut i: usize = 0;
        proof {
            assert(tv.skip(0) =~= tv);
            assert(out@ + self.spec_formatted(tv) =~= self.spec_formatted(tv));
        }
        while i < n
            invariant
                i <= n,
                self.spec_formatted(tv) == out@ + spec_format(
                    tv.skip(i as int),
                    self.title@,
                    self.name@,
                    date_s@,
                    time_s@,
                ),
            decreases n - i,
        {
            let ghost suf = tv.skip(i as int);
            proof {
                assert(suf.len() == n - i);
                assert(suf[0] == tv[i as int]);
            }
            let c = template.get_char(i);
            if c == '%' {
                if i + 1 == n {
                    proof {
                        reveal_strlit("%");
                        assert(spec_format(suf, self.title@, self.name@, date_s@, time_s@)
                            =~= seq!['%']);
                    }
                    out.append("%");
                    i += 1;
                    proof {
                        assert(tv.skip(i as int) =~= Seq::<char>::empty());
                    }
                } else {
                    proof {
                        assert(suf[1] == tv[i + 1]);
                        assert(suf.skip(2) =~= tv.skip(i + 2));
                    }
                    let d = template.get_char(i + 1);
                    if d == 'T' {
                        out.append(self.title.as_str());
                    } else if d == 'N' {
                        out.append(self.name.as_str());
                    } else if d == 'd' {
                        out.append(date_s.as_str());
                    } else if d == 't' {
                        out.append(time_s.as_str());
                    } else {
                        let two = template.substring_char(i, i + 2);
                        proof {
                            assert(two@ =~= seq![tv[i as int], tv[i + 1]]);
                        }
                        out.append(two);
                    }
                    i += 2;
                }
            } else {
                if has_pct && i < last_pct {
                    proof {
                        assert(suf[last_pct - i] == tv[last_pct as int]);
                        assert(suf.contains('%'));
                        assert(suf.skip(1) =~= tv.skip(i + 1));
                    }
                    let one = template.substring_char(i, i + 1);
                    proof {
                        assert(one@ =~= seq![tv[i as int]]);
                    }
                    out.append(one);
                    i += 1;
                } else {
                    proof {
                        assert forall|k: int| 0 <= k < suf.len() implies suf[k] != '%' by {
                            assert(suf[k] == tv[i + k]);
                        }
                        assert(!suf.contains('%'));
                    }
                    i = n;
                    proof {
                        assert(tv.skip(i as int) =~= Seq::<char>::empty());
                    }
                }
            }
            proof {
                assert(self.spec_formatted(tv) =~= out@ + spec_format(
                    tv.skip(i as int),
                    self.title@,
                    self.name@,
                    date_s@,
                    time_s@,
                ));
            }
        }
        proof {
            assert(tv.skip(n as int) =~= Seq::<char>::empty());
        }
        out
    }

    /// Renders a template after checking that the opening timestamp parses;
    /// `None` exactly when it does not.
    pub fn format_checked(&self, template: &str) -> (r: Option<String>)
        ensures
            r is Some <==> self.spec_parts() is Some,
            r is Some ==> r.unwrap()@ == self.spec_formatted(template@),
    {
        match parse_rfc3339(self.file_open_time.as_str()) {
            Some(_) => Some(self.format(template)),
            None => None,
        }
    }
}

/// Display name configured for a live room.
pub open spec fn spec_streamer_name(room_id: u64) -> Seq<char> {
    if room_id == 3 {
        "3号直播间"@
    } else {
        Seq::empty()
    }
}

/// The display name of the streamer of a live room; empty for rooms without
/// a configured name.
pub fn get_streamer_name(room_id: u64) -> (r: String)
    ensures
        r@ == spec_streamer_name(room_id),
{
    if room_id == 3 {
        String::from_str("3号直播间")
    } else {
        String::new()
    }
}

/// Template laws: `%T-%N` always renders as the title, a dash, and the name;
/// an unrecognized directive such as `%z` is copied through verbatim; a lone
/// trailing `%` is copied through as `%`.
pub proof fn lemma_format_template_laws(
    title: Seq<char>,
    name: Seq<char>,
    date: Seq<char>,
    time: Seq<char>,
)
    ensures
        spec_format("%T-%N"@, title, name, date, time) == title + "-"@ + name,
        spec_format("%z"@, title, name, date, time) == "%z"@,
        spec_format("%"@, title, name, date, time) == "%"@,
{
    reveal_strlit("%T-%N");
    reveal_strlit("-");
    reveal_strlit("%z");
    reveal_strlit("%");
    reveal_with_fuel(spec_format, 6);
    let s = "%T-%N"@;
    assert(s.skip(2).contains('%')) by {
        assert(s.skip(2)[1] == '%');
    }
    assert(s.skip(2).skip(1) =~= s.skip(3));
    assert(s.skip(3).skip(2) =~= Seq::<char>::empty());
    assert(spec_format(s.skip(3), title, name, date, time) =~= name);
    assert(spec_format(s.skip(2), title, name, date, time) =~= "-"@ + name);
    assert(spec_format(s, title, name, date, time) =~= title + "-"@ + name);
    let z = "%z"@;
    assert(z.skip(2) =~= Seq::<char>::empty());
    assert(spec_format(z, title, name, date, time) =~= z);
    assert(spec_format("%"@, title, name, date, time) =~= "%"@);
}

} // verus!
