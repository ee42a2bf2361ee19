use feedforward::activation::Activation;
use feedforward::error::NetworkError;
use feedforward::layer::LayerSpec;
use feedforward::objective::Objective;
use feedforward::shape::Shape;

#[test]
fn dot_needs_matching_inner_dimension() {
    let a = Shape::new(2, 3);
    assert_eq!(a.dot(&Shape::new(3, 5)), Some(Shape::new(2, 5)));
    assert_eq!(a.dot(&Shape::new(2, 5)), None);
}

#[test]
fn transpose_swaps_dimensions() {
    assert_eq!(Shape::new(2, 7).transpose(), Shape::new(7, 2));
}

#[test]
fn broadcast_needs_a_single_row_of_same_width() {
    let a = Shape::new(4, 3);
    assert_eq!(a.broadcast_row(&Shape::new(1, 3)), Some(a));
    assert_eq!(a.broadcast_row(&Shape::new(2, 3)), None);
    assert_eq!(a.broadcast_row(&Shape::new(1, 4)), None);
}

#[test]
fn elementwise_derivative_keeps_shape() {
    let input = Shape::new(2, 4);
    assert_eq!(Activation::<f64>::Identity.derivative_shape(input), Ok(input));
    assert_eq!(Activation::<f64>::ReLU.derivative_shape(input), Ok(input));
    assert_eq!(Activation::Binary(0.5).derivative_shape(input), Ok(input));
    assert_eq!(Activation::LeakyReLU(0.3).derivative_shape(input), Ok(input));
}

#[test]
fn softmax_derivative_is_square_jacobian_of_one_row() {
    let s = Activation::<f64>::Softmax;
    assert_eq!(s.derivative_shape(Shape::new(1, 4)), Ok(Shape::new(4, 4)));
    assert_eq!(s.derivative_shape(Shape::new(2, 4)), Err(NetworkError::ShapeMismatch));
    assert_eq!(
        Activation::<f64>::LogSoftmax.derivative_shape(Shape::new(1, 3)),
        Ok(Shape::new(3, 3))
    );
}

#[test]
fn row_wise_and_invertible_activations() {
    assert!(Activation::<f64>::Softmax.is_row_wise());
    assert!(Activation::<f64>::LogSoftmax.is_row_wise());
    assert!(!Activation::<f64>::Sigmoid.is_row_wise());
    assert!(!Activation::<f64>::ReLU.has_inverse());
    assert!(!Activation::Binary(0.5).has_inverse());
    assert!(Activation::<f64>::TanH.has_inverse());
    assert!(Activation::LeakyReLU(0.3).has_inverse());
}

#[test]
fn objective_operands() {
    let out = Shape::new(2, 1);
    assert_eq!(Objective::SumSquaredError.check_operands(out, out), Ok(out));
    assert_eq!(Objective::CrossEntropy.check_operands(out, out), Ok(out));
    assert_eq!(
        Objective::SumSquaredError.check_operands(out, Shape::new(2, 2)),
        Err(NetworkError::ShapeMismatch)
    );
    assert_eq!(
        Objective::SumSquaredError.check_operands(out, Shape::new(3, 1)),
        Err(NetworkError::ShapeMismatch)
    );
    for o in [
        Objective::Log,
        Objective::Focal,
        Objective::Exponential,
        Objective::Hinge,
        Objective::MeanSquaredError,
        Objective::MeanAbsoluteError,
        Objective::Huber,
        Objective::LogCosh,
        Objective::Quantile,
        Objective::Likelihood,
    ] {
        assert!(!o.is_implemented());
        assert_eq!(o.check_operands(out, out), Err(NetworkError::NotImplemented));
    }
}

#[test]
fn cross_entropy_fuses_with_softmax_only() {
    assert!(Objective::CrossEntropy.fuses_with(&Activation::<f64>::Softmax));
    assert!(Objective::CrossEntropy.fuses_with(&Activation::<f64>::LogSoftmax));
    assert!(!Objective::CrossEntropy.fuses_with(&Activation::<f64>::Sigmoid));
    assert!(!Objective::SumSquaredError.fuses_with(&Activation::<f64>::Softmax));
}

#[test]
fn layer_shapes() {
    let layer = LayerSpec { inputs: 3, neurons: 4, activation: Activation::<f64>::Sigmoid };
    assert_eq!(layer.weights_shape(), Shape::new(3, 4));
    assert_eq!(layer.bias_shape(), Shape::new(1, 4));
    assert_eq!(layer.forward_shape(Shape::new(5, 3)), Ok(Shape::new(5, 4)));
    assert_eq!(layer.forward_shape(Shape::new(5, 4)), Err(NetworkError::ShapeMismatch));
    assert_eq!(layer.reverse_shape(Shape::new(1, 4)), Ok(Shape::new(1, 3)));
    assert_eq!(layer.reverse_shape(Shape::new(1, 3)), Err(NetworkError::ShapeMismatch));
}
