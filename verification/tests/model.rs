use fractal_worker::{
    dispatch_fractal, process_task, Complex, Field, FractalDescriptor, FragmentRequest,
    FragmentResult, FragmentTask, Generator, IteratedSinZ, IteratedSinZDescriptor,
    IterationBudget, JuliaDescriptor, MandelbrotDescriptor, NewtonRaphsonZ3Descriptor,
    NewtonRaphsonZ3Fractal, NewtonRaphsonZ4Descriptor, NovaNewtonRaphsonZ3Descriptor,
    NovaNewtonRaphsonZ4Descriptor, PixelData, PixelIntensity, Point, ProtocolError, Range,
    Resolution, U8Data, ValidationError, WorkerError,
};

fn square() -> Range {
    Range {
        min: Point { x: (-1.0f64).to_bits(), y: (-1.0f64).to_bits() },
        max: Point { x: 1.0f64.to_bits(), y: 1.0f64.to_bits() },
    }
}

fn task(fractal: FractalDescriptor) -> FragmentTask {
    FragmentTask::new(
        U8Data { offset: 16, count: 4 },
        50,
        Resolution { nx: 2, ny: 2 },
        square(),
        fractal,
    )
}

#[test]
fn request_builder_builds_when_both_fields_are_set() {
    let request = FragmentRequest::builder()
        .with_worker_name("worker-1".to_string())
        .with_max_work_load(10)
        .build()
        .unwrap();
    assert_eq!(request.worker_name(), "worker-1");
    assert_eq!(request.maximal_work_load(), 10);
}

#[test]
fn request_builder_names_the_missing_name_first() {
    let missing_both = FragmentRequest::builder().build().unwrap_err();
    assert_eq!(missing_both, ValidationError::Missing(Field::WorkerName));
    let missing_name = FragmentRequest::builder().with_max_work_load(3).build().unwrap_err();
    assert_eq!(missing_name, ValidationError::Missing(Field::WorkerName));
    assert_eq!(missing_name.message(), "Worker name is missing");
}

#[test]
fn request_builder_names_the_missing_workload() {
    let error = FragmentRequest::builder().with_worker_name("w".to_string()).build().unwrap_err();
    assert_eq!(error, ValidationError::Missing(Field::MaxWorkLoad));
    assert_eq!(error.message(), "Max work load is missing");
}

#[test]
fn request_builder_keeps_the_last_value_set() {
    let request = FragmentRequest::builder()
        .with_worker_name("a".to_string())
        .with_max_work_load(1)
        .with_worker_name("b".to_string())
        .with_max_work_load(2)
        .build()
        .unwrap();
    assert_eq!(request.worker_name(), "b");
    assert_eq!(request.maximal_work_load(), 2);
}

#[test]
fn result_builder_builds_when_every_field_is_set() {
    let result = FragmentResult::builder()
        .with_id(0, 512)
        .with_resolution(256, 256)
        .with_range(
            (-1.0f64).to_bits(),
            (-1.0f64).to_bits(),
            1.0f64.to_bits(),
            1.0f64.to_bits(),
        )
        .with_pixels(0, 65536)
        .build()
        .unwrap();
    assert_eq!(result.id, U8Data { offset: 0, count: 512 });
    assert_eq!(result.resolution, Resolution { nx: 256, ny: 256 });
    assert_eq!(result.range, square());
    assert_eq!(result.pixels, PixelData { offset: 0, count: 65536 });
}

#[test]
fn result_builder_names_the_first_missing_field() {
    let b = FragmentResult::builder();
    assert_eq!(b.build(), Err(ValidationError::Missing(Field::Id)));
    let b = b.with_pixels(0, 1).with_range(0, 0, 0, 0);
    assert_eq!(b.build(), Err(ValidationError::Missing(Field::Id)));
    let b = b.with_id(1, 2);
    assert_eq!(b.build(), Err(ValidationError::Missing(Field::Resolution)));
    let b = FragmentResult::builder().with_id(1, 2).with_resolution(3, 4);
    assert_eq!(b.build(), Err(ValidationError::Missing(Field::Range)));
    let b = b.with_range(5, 6, 7, 8);
    assert_eq!(b.build(), Err(ValidationError::Missing(Field::Pixels)));
    assert_eq!(ValidationError::Missing(Field::Id).message(), "Id is missing");
    assert_eq!(ValidationError::Missing(Field::Resolution).message(), "Resolution is missing");
    assert_eq!(ValidationError::Missing(Field::Range).message(), "Range is missing");
    assert_eq!(ValidationError::Missing(Field::Pixels).message(), "Pixels is missing");
}

#[test]
fn field_names_are_spelled_out() {
    assert_eq!(Field::WorkerName.name(), "Worker name");
    assert_eq!(Field::MaxWorkLoad.name(), "Max work load");
    assert_eq!(Field::Id.name(), "Id");
    assert_eq!(Field::Resolution.name(), "Resolution");
    assert_eq!(Field::Range.name(), "Range");
    assert_eq!(Field::Pixels.name(), "Pixels");
}

#[test]
fn supported_descriptors_get_their_generator() {
    let c = Complex::new(0.2f64.to_bits(), 1.0f64.to_bits());
    let julia = FractalDescriptor::Julia(JuliaDescriptor {
        c,
        divergence_threshold_square: 4.0f64.to_bits(),
    });
    assert!(matches!(dispatch_fractal(&julia), Ok(Generator::Julia(_))));
    let mandelbrot = FractalDescriptor::Mandelbrot(MandelbrotDescriptor {});
    assert!(matches!(dispatch_fractal(&mandelbrot), Ok(Generator::Mandelbrot(_))));
    let sine = FractalDescriptor::IteratedSinZ(IteratedSinZDescriptor { c });
    assert_eq!(dispatch_fractal(&sine), Ok(Generator::IteratedSinZ(IteratedSinZ::new(c))));
    let newton = FractalDescriptor::NewtonRaphsonZ3(NewtonRaphsonZ3Descriptor {});
    assert_eq!(
        dispatch_fractal(&newton),
        Ok(Generator::NewtonRaphsonZ3(NewtonRaphsonZ3Fractal::new()))
    );
}

#[test]
fn unimplemented_descriptors_are_unsupported() {
    let unsupported = [
        FractalDescriptor::NewtonRaphsonZ4(NewtonRaphsonZ4Descriptor {}),
        FractalDescriptor::NovaNewtonZ3(NovaNewtonRaphsonZ3Descriptor {}),
        FractalDescriptor::NovaNewtonZ4(NovaNewtonRaphsonZ4Descriptor {}),
    ];
    for descriptor in unsupported {
        assert_eq!(dispatch_fractal(&descriptor), Err(WorkerError::UnsupportedDescriptor));
        assert!(!fractal_worker::dispatcher::supports(&descriptor));
    }
}

#[test]
fn two_by_two_mandelbrot_task_is_packaged() {
    let t = task(FractalDescriptor::Mandelbrot(MandelbrotDescriptor {}));
    let pixels: Vec<PixelIntensity> = (0..4)
        .map(|i| PixelIntensity::new((i as f32).to_bits(), 0.02f32.to_bits()))
        .collect();
    let (result, out) = process_task(&t, &[1, 2, 3, 4], pixels.clone()).unwrap();
    assert_eq!(out, pixels);
    assert_eq!(out.len(), 4);
    assert_eq!(result.pixels.count, 4);
    assert_eq!(result.pixels.offset, t.id.offset + t.id.count);
    assert_eq!(result.pixels.offset, 20);
    assert_eq!(result.id, t.id);
    assert_eq!(result.resolution, t.resolution);
    assert_eq!(result.range, t.range);
}

#[test]
fn pixel_count_is_the_grid_whatever_was_emitted() {
    let mut t = task(FractalDescriptor::NewtonRaphsonZ3(NewtonRaphsonZ3Descriptor {}));
    t.resolution = Resolution { nx: 3, ny: 5 };
    let pixels = vec![PixelIntensity::new(0, 0); 18];
    let (result, out) = process_task(&t, &[], pixels).unwrap();
    assert_eq!(result.pixels.count, 15);
    assert_eq!(out.len(), 18);
}

#[test]
fn largest_grid_does_not_overflow() {
    let mut t = task(FractalDescriptor::Mandelbrot(MandelbrotDescriptor {}));
    t.resolution = Resolution { nx: u16::MAX, ny: u16::MAX };
    let (result, _) = process_task(&t, &[], Vec::new()).unwrap();
    assert_eq!(result.pixels.count, 65535 * 65535);
    assert_eq!(t.resolution.pixel_count(), 4_294_836_225);
}

#[test]
fn unsupported_task_is_refused() {
    let t = task(FractalDescriptor::NovaNewtonZ4(NovaNewtonRaphsonZ4Descriptor {}));
    assert_eq!(
        process_task(&t, &[], Vec::new()),
        Err(WorkerError::UnsupportedDescriptor)
    );
}

#[test]
fn span_beyond_the_buffer_is_refused() {
    let mut t = task(FractalDescriptor::Mandelbrot(MandelbrotDescriptor {}));
    t.id = U8Data { offset: u32::MAX, count: 1 };
    assert_eq!(
        process_task(&t, &[], Vec::new()),
        Err(WorkerError::Protocol(ProtocolError::SpanOverflow))
    );
    t.id = U8Data { offset: u32::MAX, count: 0 };
    let (result, _) = process_task(&t, &[], Vec::new()).unwrap();
    assert_eq!(result.pixels.offset, u32::MAX);
}

#[test]
fn unsupported_comes_before_span_overflow() {
    let mut t = task(FractalDescriptor::NewtonRaphsonZ4(NewtonRaphsonZ4Descriptor {}));
    t.id = U8Data { offset: u32::MAX, count: 1 };
    assert_eq!(
        process_task(&t, &[], Vec::new()),
        Err(WorkerError::UnsupportedDescriptor)
    );
}

#[test]
fn resolution_must_have_a_pixel_on_each_axis() {
    assert!(Resolution { nx: 1, ny: 1 }.is_valid());
    assert!(!Resolution { nx: 0, ny: 1 }.is_valid());
    assert!(!Resolution { nx: 1, ny: 0 }.is_valid());
    assert_eq!(Resolution { nx: 0, ny: 7 }.pixel_count(), 0);
}

#[test]
fn budget_allows_exactly_max_iteration_steps() {
    let mut budget = IterationBudget::new(50);
    let mut steps = 0;
    while budget.spend() {
        steps += 1;
        assert!(budget.count() <= budget.max_iteration());
    }
    assert_eq!(steps, 50);
    assert_eq!(budget.count(), 50);
    assert!(!budget.has_left());
    assert!(!budget.spend());
    assert_eq!(budget.count(), 50);
}

#[test]
fn empty_budget_allows_no_step() {
    let mut budget = IterationBudget::new(0);
    assert!(!budget.has_left());
    assert!(!budget.spend());
    assert_eq!(budget.count(), 0);
    assert_eq!(budget.max_iteration(), 0);
}

#[test]
fn budget_counts_each_step_once() {
    let mut budget = IterationBudget::new(3);
    assert!(budget.has_left());
    assert_eq!(budget.count(), 0);
    assert!(budget.spend());
    assert_eq!(budget.count(), 1);
    assert!(budget.spend());
    assert!(budget.has_left());
    assert!(budget.spend());
    assert_eq!(budget.count(), 3);
    assert!(!budget.has_left());
    assert_eq!(budget.max_iteration(), 3);
}

#[test]
fn pixel_keeps_its_two_values_apart() {
    let p = PixelIntensity::new(2.0f32.to_bits(), 0.25f32.to_bits());
    assert_eq!(f32::from_bits(p.zn), 2.0);
    assert_eq!(f32::from_bits(p.count), 0.25);
}
