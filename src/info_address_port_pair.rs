//! The statistics kept for one address:port pair, and their rendering as a
//! fixed-width report row and as a compact row for the interactive display.

use vstd::prelude::*;

use crate::protocols::{AppProtocol, TrafficType, TransProtocol};
use crate::text::{
    center, decimal, push_centered, push_decimal, push_right_aligned, push_spaces, right_align,
    spaces,
};

verus! {

/// Width of the leading part of a report row that the compact row keeps.
pub const GUI_WIDTH: usize = 46;

/// Spaces that pad a report row whose address is not a very long one.
pub const SHORT_ADDRESS_PAD: usize = 40;

/// Statistics about the traffic seen for a single address:port pair.
pub struct InfoAddressPortPair {
    /// Amount of bytes transmitted between the pair.
    pub transmitted_bytes: u128,
    /// Amount of packets transmitted between the pair.
    pub transmitted_packets: u128,
    /// First exchange that featured the pair as source or destination.
    pub initial_timestamp: String,
    /// Last exchange that featured the pair as source or destination.
    pub final_timestamp: String,
    /// Transport layer protocol carried by the pair.
    pub trans_protocol: TransProtocol,
    /// Application layer protocol carried by the pair.
    pub app_protocol: AppProtocol,
    /// Whether the pair's address is a long IPv6 text, which widens the caller's address column.
    pub very_long_address: bool,
    /// Whether the traffic goes out of, comes into, or is broadcast around the captured host.
    pub traffic_type: TrafficType,
}

/// The text shown for traffic that no known application protocol matched.
pub open spec fn unclassified_text() -> Seq<char> {
    seq!['O', 't', 'h', 'e', 'r']
}

/// The text of the application protocol column, before centering.
pub open spec fn app_column(p: AppProtocol) -> Seq<char> {
    if p is Other {
        unclassified_text()
    } else {
        p.text()
    }
}

/// Keeps every character but the column separator.
pub open spec fn not_pipe() -> spec_fn(char) -> bool {
    |c: char| c != '|'
}

impl InfoAddressPortPair {
    /// The report row without the trailing padding, for a humanized byte count `bytes`.
    pub open spec fn row(self, bytes: Seq<char>) -> Seq<char> {
        spaces(3) + self.trans_protocol.text() + spaces(3) + seq!['|']
            + center(app_column(self.app_protocol), 9) + seq!['|']
            + right_align(decimal(self.transmitted_packets as nat), 10) + spaces(2) + seq!['|']
            + right_align(bytes, 10) + spaces(2) + seq!['|', ' ']
            + self.initial_timestamp@ + seq![' ', '|', ' ']
            + self.final_timestamp@ + seq![' ', '|']
    }

    /// The full report row, for a humanized byte count `bytes`: rows of pairs whose
    /// address is not very long carry 40 spaces more.
    pub open spec fn report_line(self, bytes: Seq<char>) -> Seq<char> {
        if self.very_long_address {
            self.row(bytes)
        } else {
            self.row(bytes) + spaces(SHORT_ADDRESS_PAD as nat)
        }
    }

    /// The compact row: the first 46 characters of the report row, without separators.
    pub open spec fn gui_line(self, bytes: Seq<char>) -> Seq<char> {
        self.report_line(bytes).take(GUI_WIDTH as int).filter(not_pipe())
    }

    /// The full report row; `bytes_string` is the byte count as humanized by the caller.
    pub fn to_report_line(&self, bytes_string: &str) -> (r: String)
        ensures
            r@ == self.report_line(bytes_string@),
    {
        proof {
            reveal_strlit("|");
            reveal_strlit("  |");
            reveal_strlit("  | ");
            reveal_strlit(" | ");
            reveal_strlit(" |");
            reveal_strlit("Other");
        }
        let app_string: &str = match self.app_protocol {
            AppProtocol::Other => "Other",
            _ => self.app_protocol.label(),
        };
        let mut out = String::new();
        push_spaces(&mut out, 3);
        out.append(self.trans_protocol.label());
        push_spaces(&mut out, 3);
        out.append("|");
        push_centered(&mut out, app_string, 9);
        out.append("|");
        let mut packets = String::new();
        push_decimal(&mut packets, self.transmitted_packets);
        push_right_aligned(&mut out, packets.as_str(), 10);
        out.append("  |");
        push_right_aligned(&mut out, bytes_string, 10);
        out.append("  | ");
        out.append(self.initial_timestamp.as_str());
        out.append(" | ");
        out.append(self.final_timestamp.as_str());
        out.append(" |");
        assert(packets@ =~= decimal(self.transmitted_packets as nat));
        assert(app_string@ == app_column(self.app_protocol));
        assert(out@ =~= self.row(bytes_string@));
        if !self.very_long_address {
            push_spaces(&mut out, SHORT_ADDRESS_PAD);
        }
        out
    }

    /// The compact row for the interactive display: the first 46 characters of the
    /// report row, with every column separator removed.
    pub fn print_gui(&self, bytes_string: &str) -> (r: String)
        ensures
            r@ == self.gui_line(bytes_string@),
    {
        let full = self.to_report_line(bytes_string);
        proof {
            lemma_report_line_len(*self, bytes_string@);
        }
        let s = full.as_str();
        let mut out = String::new();
        let mut i: usize = 0;
        while i < GUI_WIDTH
            invariant
                i <= GUI_WIDTH,
                s@.len() >= GUI_WIDTH,
                out@ == s@.take(i as int).filter(not_pipe()),
            decreases GUI_WIDTH - i,
        {
            let c = s.get_char(i);
            if c != '|' {
                out.append(s.substring_char(i, i + 1));
            }
            proof {
                assert(s@.take(i + 1) =~= s@.take(i as int).push(c));
                assert(s@.subrange(i as int, i + 1) =~= seq![c]);
                s@.take(i as int).lemma_filter_push(c, not_pipe());
                assert(out@ =~= s@.take(i + 1).filter(not_pipe()));
            }
            i = i + 1;
        }
        out
    }
}

/// Every report row is at least 46 characters long, so the compact row can
/// always be cut from it.
pub proof fn lemma_report_line_len(rec: InfoAddressPortPair, bytes: Seq<char>)
    ensures
        rec.report_line(bytes).len() >= GUI_WIDTH,
{
    match rec.trans_protocol {
        TransProtocol::TCP => {},
        TransProtocol::UDP => {},
        TransProtocol::Other => {},
    }
    assert(center(app_column(rec.app_protocol), 9).len() >= 9);
    assert(right_align(decimal(rec.transmitted_packets as nat), 10).len() >= 10);
    assert(right_align(bytes, 10).len() >= 10);
}

/// A row of a pair whose address is not very long ends with exactly 40 spaces,
/// right after the closing separator; a row of a very long address ends with that
/// separator itself.
pub proof fn lemma_trailing_padding(rec: InfoAddressPortPair, bytes: Seq<char>)
    ensures
        !rec.very_long_address ==> {
            let line = rec.report_line(bytes);
            &&& line.len() > SHORT_ADDRESS_PAD
            &&& line.subrange(line.len() - SHORT_ADDRESS_PAD, line.len() as int) == spaces(
                SHORT_ADDRESS_PAD as nat,
            )
            &&& line[line.len() - SHORT_ADDRESS_PAD - 1] == '|'
        },
        rec.very_long_address ==> rec.report_line(bytes).last() == '|',
{
    let row = rec.row(bytes);
    assert(row.last() == '|');
    if !rec.very_long_address {
        let line = rec.report_line(bytes);
        assert(line.subrange(line.len() - SHORT_ADDRESS_PAD, line.len() as int) =~= spaces(
            SHORT_ADDRESS_PAD as nat,
        ));
        assert(line[line.len() - SHORT_ADDRESS_PAD - 1] == row.last());
    }
}

/// The application protocol column shows the unclassified text exactly when the
/// protocol is the unclassified one, and otherwise the protocol's own label.
pub proof fn lemma_unclassified_column(p: AppProtocol)
    ensures
        (app_column(p) == unclassified_text()) <==> (p is Other),
        !(p is Other) ==> app_column(p) == p.text(),
{
    if !(p is Other) {
        assert(app_column(p)[0] != unclassified_text()[0]) by {
            match p {
                AppProtocol::Other => {},
                _ => {},
            }
        }
    }
}

/// Rendering reads nothing but the record and the humanized byte count: the same
/// record and byte count give the same rows, however often they are rendered.
pub proof fn lemma_render_deterministic(
    a: InfoAddressPortPair,
    b: InfoAddressPortPair,
    bytes_a: Seq<char>,
    bytes_b: Seq<char>,
)
    requires
        a == b,
        bytes_a == bytes_b,
    ensures
        a.report_line(bytes_a) == b.report_line(bytes_b),
        a.gui_line(bytes_a) == b.gui_line(bytes_b),
{
}

/// The compact row is at most 46 characters long and holds no column separator.
pub proof fn lemma_gui_line_shape(rec: InfoAddressPortPair, bytes: Seq<char>)
    ensures
        rec.gui_line(bytes).len() <= GUI_WIDTH,
        forall|i: int| 0 <= i < rec.gui_line(bytes).len() ==> #[trigger] rec.gui_line(bytes)[i] != '|',
{
    let head = rec.report_line(bytes).take(GUI_WIDTH as int);
    lemma_report_line_len(rec, bytes);
    head.lemma_filter_len(not_pipe());
    assert forall|i: int| 0 <= i < rec.gui_line(bytes).len() implies #[trigger] rec.gui_line(
        bytes,
    )[i] != '|' by {
        head.lemma_filter_pred(not_pipe(), i);
    }
}

} // verus!
