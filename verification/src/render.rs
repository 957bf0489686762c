use vstd::prelude::*;
use crate::classify::{classify, class_of, CharClass};

verus! {

/// One draw call against the terminal surface: switch the current draw
/// attribute, write one character, or write a whole run of text.
#[derive(Clone, Debug, PartialEq)]
pub enum DrawCmd {
    SetAttr(CharClass),
    WriteChar(char),
    WriteStr(Vec<char>),
}

/// What position `j` of a highlight-mode command list must hold for a span:
/// even positions switch the attribute to the class of the coming character,
/// odd positions write that character.
pub open spec fn hl_cmd_ok(span: Seq<char>, cmds: Seq<DrawCmd>, j: int) -> bool {
    if j % 2 == 0 {
        cmds[j] == DrawCmd::SetAttr(class_of(span[j / 2]))
    } else {
        cmds[j] == DrawCmd::WriteChar(span[j / 2])
    }
}

/// Builds the write command for one character.
fn write_char_cmd(c: char) -> (cmd: DrawCmd)
    ensures
        cmd == DrawCmd::WriteChar(c),
{
    DrawCmd::WriteChar(c)
}

/// Translates one revealed span into draw calls.
///
/// With highlighting off, the whole span is one write in whatever attribute
/// is current. With highlighting on, each character is preceded by a switch
/// to the attribute of its own class: the pair at positions `2i, 2i + 1`
/// handles character `i` of the span.
pub fn render_span(span: &Vec<char>, highlight: bool) -> (cmds: Vec<DrawCmd>)
    ensures
        !highlight ==> cmds@.len() == 1
            && (cmds@[0] matches DrawCmd::WriteStr(s) && s@ == span@),
        highlight ==> cmds@.len() == 2 * span@.len()
            && (forall|j: int| 0 <= j < cmds@.len() ==> #[trigger] hl_cmd_ok(span@, cmds@, j)),
{
    if highlight {
        let mut cmds: Vec<DrawCmd> = Vec::new();
        let mut i: usize = 0;
        while i < span.len()
            invariant
                0 <= i <= span@.len(),
                cmds@.len() == 2 * i,
                forall|j: int| 0 <= j < cmds@.len() ==> #[trigger] hl_cmd_ok(span@, cmds@, j),
            decreases span@.len() - i,
        {
            let c = span[i];
            let ghost prev = cmds@;
            cmds.push(DrawCmd::SetAttr(classify(c)));
            cmds.push(write_char_cmd(c));
            proof {
                let gi = i as int;
                assert(cmds@.len() == prev.len() + 2);
                assert forall|j: int| 0 <= j < cmds@.len() implies #[trigger] hl_cmd_ok(
                    span@,
                    cmds@,
                    j,
                ) by {
                    if j < prev.len() {
                        assert(cmds@[j] == prev[j]);
                        assert(hl_cmd_ok(span@, prev, j));
                    } else if j == 2 * gi {
                        assert((2 * gi) % 2 == 0 && (2 * gi) / 2 == gi);
                        assert(cmds@[j] == DrawCmd::SetAttr(class_of(span@[gi])));
                    } else {
                        assert(j == 2 * gi + 1);
                        assert((2 * gi + 1) % 2 == 1 && (2 * gi + 1) / 2 == gi);
                        assert(cmds@[j] == DrawCmd::WriteChar(span@[gi]));
                    }
                }
            }
            i = i + 1;
        }
        cmds
    } else {
        let mut text: Vec<char> = Vec::new();
        let mut i: usize = 0;
        while i < span.len()
            invariant
                0 <= i <= span@.len(),
                text@ == span@.subrange(0, i as int),
            decreases span@.len() - i,
        {
            text.push(span[i]);
            i = i + 1;
        }
        proof {
            assert(text@ =~= span@);
        }
        let mut cmds: Vec<DrawCmd> = Vec::new();
        cmds.push(DrawCmd::WriteStr(text));
        cmds
    }
}

/// In highlight mode no character is ever written without the immediately
/// preceding command switching the draw attribute to that character's own
/// class: every write sits at an odd position `2i + 1`, writes character `i`
/// of the span, and the command just before it sets that character's class.
pub proof fn lemma_attr_precedes_every_write(span: Seq<char>, cmds: Seq<DrawCmd>)
    requires
        cmds.len() == 2 * span.len(),
        forall|j: int| 0 <= j < cmds.len() ==> #[trigger] hl_cmd_ok(span, cmds, j),
    ensures
        forall|j: int| 0 <= j < cmds.len() && (#[trigger] cmds[j]) is WriteChar ==> j % 2 == 1,
        forall|i: int| 0 <= i < span.len() ==> #[trigger] cmds[2 * i]
            == DrawCmd::SetAttr(class_of(span[i]))
            && cmds[2 * i + 1] == DrawCmd::WriteChar(span[i]),
{
    assert forall|j: int| 0 <= j < cmds.len() && (#[trigger] cmds[j]) is WriteChar
        implies j % 2 == 1 by {
        assert(hl_cmd_ok(span, cmds, j));
    }
    assert forall|i: int| 0 <= i < span.len()
        implies #[trigger] cmds[2 * i] == DrawCmd::SetAttr(class_of(span[i]))
            && cmds[2 * i + 1] == DrawCmd::WriteChar(span[i]) by {
        assert(hl_cmd_ok(span, cmds, 2 * i));
        assert(hl_cmd_ok(span, cmds, 2 * i + 1));
        assert((2 * i) % 2 == 0 && (2 * i) / 2 == i);
        assert((2 * i + 1) % 2 == 1 && (2 * i + 1) / 2 == i);
    }
}

} // verus!
