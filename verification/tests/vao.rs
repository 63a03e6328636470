use hgl::program::LinkStep;
use hgl::query::QueryTarget;
use hgl::vao::Attrib;
use hgl::{restart_index, Call, Primitive, Program, Query, Reply, Vao};

fn program(name: u32) -> Program {
    let LinkStep::Ask(_, state) = Program::link(&[]) else {
        panic!("a link begins with a call");
    };
    let LinkStep::Ask(_, state) = state.step(Reply::Unsigned(name)) else {
        panic!("a link asks for its status");
    };
    match state.step(Reply::Signed(1)) {
        LinkStep::Done(_, Ok(program)) => program,
        _ => panic!("the link did not succeed"),
    }
}

fn lookup(array: u32, program: u32, name: &str) -> Vec<Call<'_>> {
    vec![Call::BindVertexArray { array }, Call::GetAttribLocation { program, name }]
}

#[test]
fn vao_bind_and_activate_bind_the_array() {
    let vao = Vao::new(2);
    assert_eq!(vao.bind(), Call::BindVertexArray { array: 2 });
    assert_eq!(vao.activate(), Call::BindVertexArray { array: 2 });
}

#[test]
fn enable_attrib_binds_and_looks_the_name_up() {
    let vao = Vao::new(2);
    let (calls, pending) = vao.enable_attrib(&program(5), "position", gl::FLOAT, 2, 20, 0);
    assert_eq!(calls, lookup(2, 5, "position"));
    assert_eq!(pending, Attrib::Float { kind: gl::FLOAT, elts: 2, stride: 20, offset: 0 });
}

#[test]
fn enable_attrib_lays_the_input_out() {
    let vao = Vao::new(2);
    let (_, pending) = vao.enable_attrib(&program(5), "color", gl::FLOAT, 3, 20, 8);
    assert_eq!(
        pending.at(1),
        vec![
            Call::EnableVertexAttribArray { index: 1 },
            Call::VertexAttribPointer {
                index: 1,
                components: 3,
                kind: gl::FLOAT,
                normalized: false,
                stride: 20,
                offset: 8,
            },
        ]
    );
}

#[test]
fn enable_int_attrib_keeps_integers() {
    let vao = Vao::new(2);
    let (calls, pending) = vao.enable_int_attrib(&program(5), "bone", gl::UNSIGNED_BYTE, 4, 4, 16);
    assert_eq!(calls, lookup(2, 5, "bone"));
    assert_eq!(
        pending.at(3),
        vec![
            Call::EnableVertexAttribArray { index: 3 },
            Call::VertexAttribIPointer {
                index: 3,
                components: 4,
                kind: gl::UNSIGNED_BYTE,
                stride: 4,
                offset: 16,
            },
        ]
    );
}

#[test]
fn enable_double_attrib_is_of_double_precision() {
    let vao = Vao::new(2);
    let (calls, pending) = vao.enable_double_attrib(&program(5), "where", 3, 24, 0);
    assert_eq!(calls, lookup(2, 5, "where"));
    assert_eq!(
        pending.at(0),
        vec![
            Call::EnableVertexAttribArray { index: 0 },
            Call::VertexAttribLPointer {
                index: 0,
                components: 3,
                kind: gl::DOUBLE,
                stride: 24,
                offset: 0,
            },
        ]
    );
}

#[test]
fn disable_attrib_disables_at_the_location() {
    let vao = Vao::new(2);
    let (calls, pending) = vao.disable_attrib(&program(5), "color");
    assert_eq!(calls, lookup(2, 5, "color"));
    assert_eq!(pending, Attrib::Disable);
    assert_eq!(pending.at(6), vec![Call::DisableVertexAttribArray { index: 6 }]);
}

#[test]
fn a_missing_input_gives_the_index_the_driver_refuses() {
    assert_eq!(
        Attrib::Disable.at(-1),
        vec![Call::DisableVertexAttribArray { index: u32::MAX }]
    );
    let calls = Attrib::Float { kind: gl::FLOAT, elts: 1, stride: 0, offset: 0 }.at(-1);
    assert_eq!(calls[0], Call::EnableVertexAttribArray { index: 0xffff_ffff });
    assert_eq!(Attrib::Disable.at(i32::MIN), vec![Call::DisableVertexAttribArray { index: 1 << 31 }]);
    assert_eq!(
        Attrib::Disable.at(i32::MAX),
        vec![Call::DisableVertexAttribArray { index: 0x7fff_ffff }]
    );
}

#[test]
fn draw_array_passes_first_and_count() {
    let vao = Vao::new(2);
    assert_eq!(
        vao.draw_array(Primitive::Triangles, 0, 3),
        Call::DrawArrays { mode: gl::TRIANGLES, first: 0, count: 3 }
    );
    assert_eq!(
        vao.draw_array(Primitive::LineStrip, 4, 10),
        Call::DrawArrays { mode: gl::LINE_STRIP, first: 4, count: 10 }
    );
}

#[test]
fn draw_elements_reads_unsigned_ints() {
    let vao = Vao::new(2);
    assert_eq!(
        vao.draw_elements(Primitive::TriangleStrip, 0, 6),
        Call::DrawElements { mode: gl::TRIANGLE_STRIP, count: 6, kind: gl::UNSIGNED_INT, first: 0 }
    );
    assert_eq!(
        vao.draw_elements(Primitive::Points, 12, 2),
        Call::DrawElements { mode: 0, count: 2, kind: 0x1405, first: 12 }
    );
}

#[test]
fn vao_release_deletes_its_name() {
    assert_eq!(Vao::new(2).release(), Call::DeleteVertexArrays { array: 2 });
}

#[test]
fn restart_index_passes_the_index() {
    assert_eq!(restart_index(0xffff), Call::PrimitiveRestartIndex { index: 0xffff });
    assert_eq!(restart_index(0), Call::PrimitiveRestartIndex { index: 0 });
}

#[test]
fn query_begin_and_end_bracket_the_target() {
    let query = Query::new(8, QueryTarget::SamplesPassed);
    assert_eq!(query.begin(), Call::BeginQuery { target: gl::SAMPLES_PASSED, id: 8 });
    assert_eq!(query.end(), Call::EndQuery { target: gl::SAMPLES_PASSED });
}

#[test]
fn query_result_available_polls() {
    let query = Query::new(8, QueryTarget::SamplesPassed);
    assert_eq!(
        query.result_available(),
        Call::GetQueryObjectuiv { id: 8, pname: gl::QUERY_RESULT_AVAILABLE }
    );
}

#[test]
fn query_is_available_only_on_true() {
    assert!(Query::is_available(gl::TRUE as u32));
    assert!(!Query::is_available(gl::FALSE as u32));
    assert!(!Query::is_available(2));
    assert!(!Query::is_available(u32::MAX));
}

#[test]
fn query_result_reads_the_value() {
    let query = Query::new(8, QueryTarget::SamplesPassed);
    assert_eq!(query.result(), Call::GetQueryObjectuiv { id: 8, pname: gl::QUERY_RESULT });
}

#[test]
fn query_release_deletes_its_name() {
    assert_eq!(
        Query::new(8, QueryTarget::SamplesPassed).release(),
        Call::DeleteQueries { id: 8 }
    );
}
