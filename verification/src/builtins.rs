//! Two ready-made evaluators a host can register as they are: one that
//! moves the working directory, one that shows it.

use vstd::prelude::*;
use vstd::string::StringExecFns;
use crate::path::rendered_below;
use crate::state::{LilState, LilEvaluator};

verus! {

/// Appends its single argument to the working directory as one component.
/// `..` and `.` take effect when the engine normalizes the directory after
/// the cycle, and the engine likewise rejects a move outside the root.
pub struct CdEvaluator;

impl LilEvaluator for CdEvaluator {
    open spec fn evaluated(&self, pre: LilState, post: LilState, r: Result<(), ()>) -> bool {
        &&& post.root@ == pre.root@
        &&& post.args@ == pre.args@
        &&& post.stdout@ == pre.stdout@
        &&& post.stderr@ == pre.stderr@
        &&& if pre.args@.len() == 2 {
            r is Ok && post.cwd@ == pre.cwd@.push(pre.args@[1]@)
        } else {
            r is Err && post.cwd@ == pre.cwd@
        }
    }

    fn evaluate(&self, st: &mut LilState) -> (r: Result<(), ()>) {
        if st.args.len() == 2 {
            let part = st.args[1].clone();
            let ghost before = st.cwd@;
            st.cwd.parts.push(part);
            proof {
                assert(st.cwd@ =~= before.push(st.args@[1]@));
            }
            Ok(())
        } else {
            Err(())
        }
    }
}

/// Writes the working directory, shown relative to the root, to the
/// output buffer.
pub struct PwdEvaluator;

impl LilEvaluator for PwdEvaluator {
    open spec fn evaluated(&self, pre: LilState, post: LilState, r: Result<(), ()>) -> bool {
        &&& post.root@ == pre.root@
        &&& post.cwd@ == pre.cwd@
        &&& post.args@ == pre.args@
        &&& post.stderr@ == pre.stderr@
        &&& r is Ok
        &&& post.stdout@ == pre.stdout@ + rendered_below(pre.root@, pre.cwd@)
    }

    fn evaluate(&self, st: &mut LilState) -> (r: Result<(), ()>) {
        let text = st.cwd.render_below(&st.root);
        st.stdout.append(text.as_str());
        Ok(())
    }
}

} // verus!
