//! Whole conversations of a program build with the GL.

use vstd::prelude::*;
use crate::shader_program::{
    BuildModel, CallModel, Phase, ReplyModel, ShaderStage, INFO_LOG_CAPACITY, log_fits, start,
};

verus! {

/// The calls a build hands out while it is given `replies` one after the
/// other, and the state it ends in.
pub open spec fn run(b: BuildModel, replies: Seq<ReplyModel>) -> (BuildModel, Seq<CallModel>)
    decreases replies.len(),
{
    if replies.len() == 0 {
        (b, Seq::empty())
    } else {
        let (b1, call) = b.advance(replies[0]);
        let (b2, calls) = run(b1, replies.drop_first());
        (b2, seq![call] + calls)
    }
}

/// Whether a build takes each of `replies` in turn.
pub open spec fn accepts_all(b: BuildModel, replies: Seq<ReplyModel>) -> bool
    decreases replies.len(),
{
    replies.len() == 0 || (b.accepts(replies[0]) && accepts_all(
        b.advance(replies[0]).0,
        replies.drop_first(),
    ))
}

/// The replies to compiling one shader, after its name: source set, compiled,
/// the info log, and, when the log is not empty, its printing.
pub open spec fn shader_replies(len: int, log: Seq<u8>) -> Seq<ReplyModel> {
    seq![ReplyModel::Done, ReplyModel::Done, ReplyModel::InfoLog(len, log)] + if len != 0 {
        seq![ReplyModel::Done]
    } else {
        Seq::empty()
    }
}

/// The calls that compile one shader once it is created.
pub open spec fn shader_calls(id: u32, source: Seq<char>, len: int, log: Seq<u8>) -> Seq<CallModel> {
    seq![
        CallModel::ShaderSource(id, source),
        CallModel::CompileShader(id),
        CallModel::GetShaderInfoLog(id, INFO_LOG_CAPACITY as nat),
    ] + if len != 0 {
        seq![CallModel::PrintInfoLog(log.take(len))]
    } else {
        Seq::empty()
    }
}

/// Everything the GL answers during a build: the vertex shader's name and
/// compile replies, the fragment shader's, the program's name, and the five
/// calls that return nothing.
pub open spec fn build_replies(
    v: u32,
    vlen: int,
    vlog: Seq<u8>,
    f: u32,
    flen: int,
    flog: Seq<u8>,
    p: u32,
) -> Seq<ReplyModel> {
    (seq![ReplyModel::Name(v)] + shader_replies(vlen, vlog)) + (seq![ReplyModel::Name(f)]
        + shader_replies(flen, flog)) + link_replies(p)
}

/// Every call of a build after the first: compile the vertex shader, create
/// and compile the fragment shader, create the program, attach the vertex
/// then the fragment shader, link, delete the vertex then the fragment
/// shader, and finish with the program's name.
pub open spec fn build_calls(
    vs: Seq<char>,
    fs: Seq<char>,
    v: u32,
    vlen: int,
    vlog: Seq<u8>,
    f: u32,
    flen: int,
    flog: Seq<u8>,
    p: u32,
) -> Seq<CallModel> {
    (shader_calls(v, vs, vlen, vlog) + seq![CallModel::CreateShader(ShaderStage::Fragment)]) + (
    shader_calls(f, fs, flen, flog) + seq![CallModel::CreateProgram]) + seq![
        CallModel::AttachShader(p, v),
        CallModel::AttachShader(p, f),
        CallModel::LinkProgram(p),
        CallModel::DeleteShader(v),
        CallModel::DeleteShader(f),
        CallModel::Finished(p),
    ]
}

proof fn lemma_run_step(b: BuildModel, r: ReplyModel, rest: Seq<ReplyModel>)
    ensures
        run(b, seq![r] + rest) == (run(b.advance(r).0, rest).0, seq![b.advance(r).1] + run(
            b.advance(r).0,
            rest,
        ).1),
        accepts_all(b, seq![r] + rest) == (b.accepts(r) && accepts_all(b.advance(r).0, rest)),
{
    assert((seq![r] + rest).drop_first() =~= rest);
    assert((seq![r] + rest)[0] == r);
}

proof fn lemma_run_empty(b: BuildModel)
    ensures
        run(b, Seq::empty()) == (b, Seq::<CallModel>::empty()),
        accepts_all(b, Seq::empty()),
{
}

proof fn lemma_run_append(b: BuildModel, r1: Seq<ReplyModel>, r2: Seq<ReplyModel>)
    ensures
        run(b, r1 + r2) == (run(run(b, r1).0, r2).0, run(b, r1).1 + run(run(b, r1).0, r2).1),
        accepts_all(b, r1 + r2) == (accepts_all(b, r1) && accepts_all(run(b, r1).0, r2)),
    decreases r1.len(),
{
    if r1.len() == 0 {
        assert(r1 + r2 =~= r2);
        assert(run(b, r1).1 + run(b, r2).1 =~= run(b, r2).1);
    } else {
        let r = r1[0];
        let t = r1.drop_first();
        assert(r1 =~= seq![r] + t);
        assert(r1 + r2 =~= seq![r] + (t + r2));
        lemma_run_step(b, r, t + r2);
        lemma_run_step(b, r, t);
        lemma_run_append(b.advance(r).0, t, r2);
        let b1 = b.advance(r).0;
        assert(seq![b.advance(r).1] + (run(b1, t).1 + run(run(b1, t).0, r2).1) =~= (seq![
            b.advance(r).1,
        ] + run(b1, t).1) + run(run(b1, t).0, r2).1);
    }
}

/// One shader's part of a build, from `glCreateShader` to the call that
/// follows its log.
proof fn lemma_shader_segment(b: BuildModel, stage: ShaderStage, id: u32, len: int, log: Seq<u8>)
    requires
        b.phase == Phase::CreatingShader(stage),
        log_fits(len, log),
    ensures
        accepts_all(b, seq![ReplyModel::Name(id)] + shader_replies(len, log)),
        run(b, seq![ReplyModel::Name(id)] + shader_replies(len, log)) == (
            b.with_shader(stage, id).after_shader(stage).0,
            shader_calls(id, b.source_of(stage), len, log) + seq![
                b.after_shader(stage).1,
            ],
        ),
{
    let tail = if len != 0 {
        seq![ReplyModel::Done]
    } else {
        Seq::empty()
    };
    let replies = seq![ReplyModel::Name(id)] + shader_replies(len, log);
    assert(replies =~= seq![ReplyModel::Name(id)] + (seq![ReplyModel::Done] + (seq![
        ReplyModel::Done,
    ] + (seq![ReplyModel::InfoLog(len, log)] + tail))));
    let b1 = b.advance(ReplyModel::Name(id)).0;
    let b2 = b1.advance(ReplyModel::Done).0;
    let b3 = b2.advance(ReplyModel::Done).0;
    let b4 = b3.advance(ReplyModel::InfoLog(len, log)).0;
    lemma_run_step(b3, ReplyModel::InfoLog(len, log), tail);
    lemma_run_step(b2, ReplyModel::Done, seq![ReplyModel::InfoLog(len, log)] + tail);
    lemma_run_step(
        b1,
        ReplyModel::Done,
        seq![ReplyModel::Done] + (seq![ReplyModel::InfoLog(len, log)] + tail),
    );
    lemma_run_step(
        b,
        ReplyModel::Name(id),
        seq![ReplyModel::Done] + (seq![ReplyModel::Done] + (seq![ReplyModel::InfoLog(len, log)]
            + tail)),
    );
    if len != 0 {
        lemma_run_step(b4, ReplyModel::Done, Seq::empty());
        assert(tail =~= seq![ReplyModel::Done] + Seq::<ReplyModel>::empty());
        lemma_run_empty(b4.advance(ReplyModel::Done).0);
    } else {
        lemma_run_empty(b4);
    }
    assert(run(b, replies).1 =~= shader_calls(id, b.source_of(stage), len, log) + seq![
        b.after_shader(stage).1,
    ]);
}

/// The replies from `glCreateProgram` on: the program's name, then nothing
/// for attaching both shaders, linking and deleting both shaders.
pub open spec fn link_replies(p: u32) -> Seq<ReplyModel> {
    seq![
        ReplyModel::Name(p),
        ReplyModel::Done,
        ReplyModel::Done,
        ReplyModel::Done,
        ReplyModel::Done,
        ReplyModel::Done,
    ]
}

/// The end of a build, from `glCreateProgram` to the finished build.
proof fn lemma_link_segment(b: BuildModel, p: u32)
    requires
        b.phase == Phase::CreatingProgram,
    ensures
        accepts_all(b, link_replies(p)),
        run(b, link_replies(p)) == (
            BuildModel { phase: Phase::Finished, program: p, ..b },
            seq![
                CallModel::AttachShader(p, b.vertex),
                CallModel::AttachShader(p, b.fragment),
                CallModel::LinkProgram(p),
                CallModel::DeleteShader(b.vertex),
                CallModel::DeleteShader(b.fragment),
                CallModel::Finished(p),
            ],
        ),
{
    let d = ReplyModel::Done;
    let e = Seq::<ReplyModel>::empty();
    let r5 = seq![d] + e;
    let r4 = seq![d] + r5;
    let r3 = seq![d] + r4;
    let r2 = seq![d] + r3;
    let r1 = seq![d] + r2;
    let r0 = seq![ReplyModel::Name(p)] + r1;
    assert(r0 =~= link_replies(p));
    let b1 = b.advance(ReplyModel::Name(p)).0;
    let b2 = b1.advance(d).0;
    let b3 = b2.advance(d).0;
    let b4 = b3.advance(d).0;
    let b5 = b4.advance(d).0;
    let b6 = b5.advance(d).0;
    lemma_run_empty(b6);
    lemma_run_step(b5, d, e);
    lemma_run_step(b4, d, r5);
    lemma_run_step(b3, d, r4);
    lemma_run_step(b2, d, r3);
    lemma_run_step(b1, d, r2);
    lemma_run_step(b, ReplyModel::Name(p), r1);
    assert(run(b, r0).1 =~= seq![
        CallModel::AttachShader(p, b.vertex),
        CallModel::AttachShader(p, b.fragment),
        CallModel::LinkProgram(p),
        CallModel::DeleteShader(b.vertex),
        CallModel::DeleteShader(b.fragment),
        CallModel::Finished(p),
    ]);
}

/// Law of a build: whatever names the GL hands out and whatever info logs
/// it reports (each in a buffer of the size asked for, with its length
/// within the buffer and valid UTF-8 up to that length), a build of `vs` and `fs` takes
/// every reply of the conversation, hands out exactly the calls of
/// `build_calls` (after its first, creating the vertex shader) with the
/// vertex source going to the vertex shader and the fragment source to the
/// fragment shader, attaches and deletes the two shaders the GL named,
/// prints a log exactly when its length is not zero, and ends finished with
/// the program name that `glCreateProgram` returned.
pub proof fn law_build_conversation(
    vs: Seq<char>,
    fs: Seq<char>,
    v: u32,
    vlen: int,
    vlog: Seq<u8>,
    f: u32,
    flen: int,
    flog: Seq<u8>,
    p: u32,
)
    requires
        log_fits(vlen, vlog),
        log_fits(flen, flog),
    ensures
        accepts_all(start(vs, fs), build_replies(v, vlen, vlog, f, flen, flog, p)),
        run(start(vs, fs), build_replies(v, vlen, vlog, f, flen, flog, p)).1 == build_calls(
            vs,
            fs,
            v,
            vlen,
            vlog,
            f,
            flen,
            flog,
            p,
        ),
        run(start(vs, fs), build_replies(v, vlen, vlog, f, flen, flog, p)).0.phase
            == Phase::Finished,
        run(start(vs, fs), build_replies(v, vlen, vlog, f, flen, flog, p)).0.program == p,
{
    let b0 = start(vs, fs);
    let sv = seq![ReplyModel::Name(v)] + shader_replies(vlen, vlog);
    let sf = seq![ReplyModel::Name(f)] + shader_replies(flen, flog);
    let sl = link_replies(p);
    lemma_shader_segment(b0, ShaderStage::Vertex, v, vlen, vlog);
    let b1 = run(b0, sv).0;
    lemma_shader_segment(b1, ShaderStage::Fragment, f, flen, flog);
    let b2 = run(b1, sf).0;
    lemma_link_segment(b2, p);
    lemma_run_append(b0, sv, sf);
    lemma_run_append(b0, sv + sf, sl);
    assert(build_replies(v, vlen, vlog, f, flen, flog, p) == (sv + sf) + sl);
    assert(run(b0, (sv + sf) + sl).1 =~= build_calls(vs, fs, v, vlen, vlog, f, flen, flog, p));
}

} // verus!
