use glium::context::{Api, Context, GlVersion};
use glium::program::{Program, TransformFeedbackMode, TransformFeedbackVarying};
use glium::transform_feedback::{is_transform_feedback_matching, new_session, Buffer};
use glium::vertex::{AttributeType, VertexFormat};

fn program(mode: Option<TransformFeedbackMode>) -> Program {
    Program {
        id: 21,
        outputs: vec![],
        transform_feedback_mode: mode,
        transform_feedback_varyings: vec![
            TransformFeedbackVarying { name: "a".to_string(), size: 12, ty: AttributeType::F32F32F32 },
            TransformFeedbackVarying { name: "b".to_string(), size: 8, ty: AttributeType::F32F32 },
        ],
    }
}

fn format() -> VertexFormat {
    vec![
        ("a".to_string(), 0, AttributeType::F32F32F32),
        ("b".to_string(), 12, AttributeType::F32F32),
    ]
}

fn context(version: GlVersion, ext: bool) -> Context {
    Context { version, gl_ext_transform_feedback: ext, max_viewport_dims: (1024, 1024) }
}

#[test]
fn matching_format_is_accepted() {
    let p = program(Some(TransformFeedbackMode::Interleaved));
    assert!(is_transform_feedback_matching(&format(), &p));
    let mut reordered = format();
    reordered.reverse();
    assert!(is_transform_feedback_matching(&reordered, &p));
}

#[test]
fn missing_or_misplaced_entry_is_refused() {
    let p = program(Some(TransformFeedbackMode::Interleaved));
    let mut missing = format();
    missing.remove(1);
    assert!(!is_transform_feedback_matching(&missing, &p));
    let misplaced: VertexFormat = vec![
        ("b".to_string(), 0, AttributeType::F32F32),
        ("a".to_string(), 8, AttributeType::F32F32F32),
    ];
    assert!(!is_transform_feedback_matching(&misplaced, &p));
    let wrong_type: VertexFormat = vec![
        ("a".to_string(), 0, AttributeType::F32F32F32F32),
        ("b".to_string(), 12, AttributeType::F32F32),
    ];
    assert!(!is_transform_feedback_matching(&wrong_type, &p));
}

#[test]
fn separate_mode_is_refused() {
    assert!(!is_transform_feedback_matching(&format(), &program(Some(TransformFeedbackMode::Separate))));
    assert!(!is_transform_feedback_matching(&format(), &program(None)));
}

#[test]
fn session_needs_support_and_a_matching_format() {
    let p = program(Some(TransformFeedbackMode::Interleaved));
    let mut buffer = Buffer { id: 33 };
    let old = context(GlVersion(Api::Gl, 2, 1), false);
    assert!(new_session(&old, &mut buffer, &format(), &p).is_none());
    let es = context(GlVersion(Api::GlEs, 3, 0), false);
    assert!(new_session(&es, &mut buffer, &format(), &p).is_none());
    let with_ext = context(GlVersion(Api::Gl, 2, 1), true);
    assert!(new_session(&with_ext, &mut buffer, &format(), &p).is_some());
    let gl3 = context(GlVersion(Api::Gl, 3, 0), false);
    let session = new_session(&gl3, &mut buffer, &format(), &p).unwrap();
    assert_eq!(session.get_buffer(), 33);
    assert_eq!(session.get_program(), 21);
    let mut other = Buffer { id: 34 };
    let mut missing = format();
    missing.pop();
    assert!(new_session(&gl3, &mut other, &missing, &p).is_none());
}
