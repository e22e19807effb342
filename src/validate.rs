//! Validation of a whole file, given as the outcome of reading each of its lines.
use crate::error::{verdict_of_error, Error, LineVerdict, PrintResult};
use crate::parse::{line_verdict, parse_line};
use vstd::prelude::*;

verus! {

/// A verdict that the report lists: a command that is unsupported or invalid.
pub open spec fn is_reported(v: LineVerdict) -> bool {
    v is Unsupported || v is Invalid
}

/// The verdicts that the report on a file with the lines `lines` lists, in line order;
/// lines are numbered from 1.
pub open spec fn report(lines: Seq<Seq<char>>) -> Seq<LineVerdict>
    decreases lines.len(),
{
    if lines.len() == 0 {
        Seq::empty()
    } else {
        let earlier = report(lines.drop_last());
        let v = line_verdict(lines.last(), lines.len() as nat);
        if is_reported(v) {
            earlier.push(v)
        } else {
            earlier
        }
    }
}

/// The text of each line that was read; a line that could not be read counts as empty.
pub open spec fn line_texts(lines: Seq<Result<String, std::io::Error>>) -> Seq<Seq<char>> {
    lines.map_values(
        |l: Result<String, std::io::Error>|
            match l {
                Ok(text) => text@,
                Err(_) => Seq::empty(),
            },
    )
}

/// The errors of `errors` report the verdicts `verdicts`, one for one and in order.
pub open spec fn reports(errors: Seq<Error>, verdicts: Seq<LineVerdict>) -> bool {
    &&& errors.len() == verdicts.len()
    &&& forall|i: int| 0 <= i < errors.len() ==> verdict_of_error(#[trigger] errors[i]) == Some(verdicts[i])
}

/// Validates a file given as the outcome of reading each of its lines, in order.
///
/// When a line could not be read, the result is that read error, and nothing else is
/// reported. Otherwise the result lists an error for each line whose command is
/// unsupported or invalid, in line order; it is empty for a valid file.
pub fn validate(lines: Vec<Result<String, std::io::Error>>) -> (r: PrintResult<Vec<Error>>)
    ensures
        match r {
            Ok(errors) => (forall|i: int| 0 <= i < lines@.len() ==> (#[trigger] lines@[i]) is Ok)
                && reports(errors@, report(line_texts(lines@))),
            Err(Error::InputOutputError(e)) => exists|k: int|
                0 <= k < lines@.len() && lines@[k] == Err::<String, std::io::Error>(e) && (forall|
                    i: int,
                | 0 <= i < k ==> (#[trigger] lines@[i]) is Ok),
            Err(_) => false,
        },
{
    let mut lines = lines;
    let ghost all = lines@;
    let mut errors: Vec<Error> = Vec::new();
    let mut i: usize = 0;
    proof {
        assert(line_texts(all).take(0) =~= Seq::<Seq<char>>::empty());
    }
    while i < lines.len()
        invariant
            lines@ == all,
            i <= all.len(),
            forall|j: int| 0 <= j < i ==> (#[trigger] all[j]) is Ok,
            reports(errors@, report(line_texts(all).take(i as int))),
        ensures
            i < all.len() ==> all[i as int] is Err,
        decreases all.len() - i,
    {
        let parsed = match &lines[i] {
            Ok(text) => parse_line(text.as_str(), i + 1),
            Err(_) => {
                break;
            },
        };
        proof {
            assert(line_texts(all).take(i + 1).drop_last() =~= line_texts(all).take(i as int));
        }
        match parsed {
            Err(error) => {
                errors.push(error);
            },
            Ok(_) => {},
        }
        i += 1;
    }
    if i < lines.len() {
        let failed = lines.remove(i);
        if let Err(e) = failed {
            return Err(Error::InputOutputError(e));
        }
    }
    proof {
        assert(line_texts(all).take(all.len() as int) =~= line_texts(all));
    }
    Ok(errors)
}

/// Each entry of the report on a file is the verdict on one of its lines, numbered by
/// its 1-based position in the file, and is one that the report lists.
pub proof fn lemma_report_entries_name_their_lines(lines: Seq<Seq<char>>)
    ensures
        forall|i: int|
            0 <= i < report(lines).len() ==> exists|k: int|
                0 <= k < lines.len() && #[trigger] report(lines)[i] == line_verdict(
                    lines[k],
                    (k + 1) as nat,
                ) && is_reported(report(lines)[i]),
    decreases lines.len(),
{
    if lines.len() > 0 {
        let init = lines.drop_last();
        lemma_report_entries_name_their_lines(init);
        assert forall|i: int| 0 <= i < report(lines).len() implies exists|k: int|
            0 <= k < lines.len() && #[trigger] report(lines)[i] == line_verdict(
                lines[k],
                (k + 1) as nat,
            ) && is_reported(report(lines)[i]) by {
            if i < report(init).len() {
                let k = choose|k: int|
                    0 <= k < init.len() && #[trigger] report(init)[i] == line_verdict(
                        init[k],
                        (k + 1) as nat,
                    ) && is_reported(report(init)[i]);
                assert(init[k] == lines[k]);
            } else {
                assert(lines.last() == lines[lines.len() - 1]);
            }
        }
    }
}

/// A file in which no line has an unsupported or invalid command has an empty report.
pub proof fn lemma_valid_file_has_empty_report(lines: Seq<Seq<char>>)
    requires
        forall|k: int|
            0 <= k < lines.len() ==> !is_reported(
                #[trigger] line_verdict(lines[k], (k + 1) as nat),
            ),
    ensures
        report(lines).len() == 0,
    decreases lines.len(),
{
    if lines.len() > 0 {
        let init = lines.drop_last();
        assert forall|k: int| 0 <= k < init.len() implies !is_reported(
            #[trigger] line_verdict(init[k], (k + 1) as nat),
        ) by {
            assert(init[k] == lines[k]);
        }
        lemma_valid_file_has_empty_report(init);
        let last = lines.len() - 1;
        assert(!is_reported(line_verdict(lines[last], (last + 1) as nat)));
    }
}

} // verus!
