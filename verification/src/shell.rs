//! The shell management group (group 9): run a shell command line.

use vstd::prelude::*;

use crate::cbor::{encode_cbor, spec_view_entries, spec_view_seq, Cbor, CborValue, MapBuilder};
use crate::commands::{get_i32_fld, get_txt_fld, i32_fld, txt_fld, McuMgrCommand};

verus! {

/// Shell command line execute command.
pub struct ShellCommandLineExecute {
    /// The command and its arguments.
    pub argv: Vec<String>,
}

/// Response to [`ShellCommandLineExecute`].
pub struct ShellCommandLineExecuteResponse {
    /// The command's output.
    pub o: String,
    /// The command's return code.
    pub ret: i32,
}

/// The text items of an argument list.
pub open spec fn spec_argv(argv: Seq<String>) -> Seq<Cbor>
    decreases argv.len(),
{
    if argv.len() == 0 {
        Seq::empty()
    } else {
        seq![Cbor::Text(argv[0]@)] + spec_argv(argv.subrange(1, argv.len() as int))
    }
}

/// Appending an argument appends its text item.
proof fn lemma_argv_push(argv: Seq<String>, s: String)
    ensures
        spec_argv(argv.push(s)) == spec_argv(argv) + seq![Cbor::Text(s@)],
    decreases argv.len(),
{
    if argv.len() == 0 {
        assert(argv.push(s)[0] == s);
        assert(argv.push(s).subrange(1, argv.push(s).len() as int) =~= Seq::<String>::empty());
        assert(spec_argv(Seq::<String>::empty()) == Seq::<Cbor>::empty());
        assert(spec_argv(argv.push(s)) =~= spec_argv(argv) + seq![Cbor::Text(s@)]);
    } else {
        assert(argv.push(s)[0] == argv[0]);
        assert(argv.push(s).subrange(1, argv.push(s).len() as int) =~= argv.subrange(
            1,
            argv.len() as int,
        ).push(s));
        lemma_argv_push(argv.subrange(1, argv.len() as int), s);
        assert(spec_argv(argv.push(s)) =~= spec_argv(argv) + seq![Cbor::Text(s@)]);
    }
}

impl McuMgrCommand for ShellCommandLineExecute {
    type Response = ShellCommandLineExecuteResponse;

    open spec fn spec_write_operation(&self) -> bool {
        true
    }

    open spec fn spec_group_id(&self) -> u16 {
        9
    }

    open spec fn spec_command_id(&self) -> u8 {
        0
    }

    open spec fn spec_payload(&self) -> Cbor {
        Cbor::Dict(seq![("argv"@, Cbor::Array(spec_argv(self.argv@)))])
    }

    open spec fn response_decodes(v: Cbor) -> bool {
        txt_fld(v, "o"@) is Some && i32_fld(v, "ret"@) is Some
    }

    open spec fn response_matches(v: Cbor, r: ShellCommandLineExecuteResponse) -> bool {
        &&& txt_fld(v, "o"@) matches Some(t) && r.o@ == t
        &&& i32_fld(v, "ret"@) == Some(r.ret)
    }

    fn is_write_operation(&self) -> bool {
        true
    }

    fn group_id(&self) -> u16 {
        9
    }

    fn command_id(&self) -> u8 {
        0
    }

    fn encode_payload(&self) -> (r: Vec<u8>) {
        let mut items: Vec<CborValue> = Vec::new();
        let mut i: usize = 0;
        while i < self.argv.len()
            invariant
                i <= self.argv@.len(),
                spec_view_seq(items@) == spec_argv(self.argv@.take(i as int)),
        decreases self.argv@.len() - i,
        {
            let ghost pre = items@;
            items.push(CborValue::Text(self.argv[i].clone()));
            proof {
                crate::cbor::lemma_view_seq_push(pre, CborValue::Text(self.argv@[i as int]));
                lemma_argv_push(self.argv@.take(i as int), self.argv@[i as int]);
                assert(self.argv@.take(i as int).push(self.argv@[i as int]) =~= self.argv@.take(
                    i as int + 1,
                ));
                assert(spec_view_seq(items@) =~= spec_argv(self.argv@.take(i as int + 1)));
            }
            i = i + 1;
        }
        proof {
            assert(self.argv@.take(self.argv@.len() as int) =~= self.argv@);
        }
        let mut b = MapBuilder::new();
        b.field("argv", CborValue::Array(items));
        let ghost ents = spec_view_entries(b.entries@);
        let v = b.build();
        proof {
            assert(ents =~= (self.spec_payload())->Dict_0);
        }
        encode_cbor(&v)
    }

    fn decode_response(v: &CborValue) -> (r: Option<ShellCommandLineExecuteResponse>) {
        let o = match get_txt_fld(v, "o") {
            Some(x) => x,
            None => {
                return None;
            },
        };
        let ret = match get_i32_fld(v, "ret") {
            Some(x) => x,
            None => {
                return None;
            },
        };
        Some(ShellCommandLineExecuteResponse { o, ret })
    }
}

} // verus!
